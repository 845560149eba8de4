//! The configuration model: module kinds, optimisation and debug levels, the
//! per-invocation build settings, the long-lived user settings, and the
//! resolution of the sysroot and tool locations from them.
use vstd::prelude::*;

use crate::error::{Error, Fault};
use crate::text::{concat, join_path, joined, path_exists, path_is_dir, text};

verus! {

/// The structural role of a build's output.
#[derive(Debug, Clone, Copy, PartialEq, Eq, Structural)]
pub enum ModuleKind {
    /// A standalone executable without dynamic loading.
    StaticMain,
    /// An executable able to load side modules at run time.
    DynamicMain,
    /// A side module loadable by a dynamic main.
    SharedLibrary,
    /// An object file, not linked.
    ObjectFile,
}

impl ModuleKind {
    pub open spec fn spec_requires_pic(self) -> bool {
        self is DynamicMain || self is SharedLibrary
    }

    pub open spec fn spec_is_binary(self) -> bool {
        !(self is ObjectFile)
    }

    pub open spec fn spec_is_executable(self) -> bool {
        self is StaticMain || self is DynamicMain
    }

    /// Whether code of this kind must be position independent.
    pub fn requires_pic(&self) -> (r: bool)
        ensures
            r == self.spec_requires_pic(),
    {
        matches!(self, ModuleKind::DynamicMain | ModuleKind::SharedLibrary)
    }

    /// Whether this kind is produced by linking.
    pub fn is_binary(&self) -> (r: bool)
        ensures
            r == self.spec_is_binary(),
    {
        matches!(
            self,
            ModuleKind::StaticMain | ModuleKind::DynamicMain | ModuleKind::SharedLibrary
        )
    }

    /// Whether this kind is a main module.
    pub fn is_executable(&self) -> (r: bool)
        ensures
            r == self.spec_is_executable(),
    {
        matches!(self, ModuleKind::StaticMain | ModuleKind::DynamicMain)
    }
}

/// Optimisation level named by an `-O` flag.
#[derive(Debug, Clone, Copy, PartialEq, Eq, Structural)]
pub enum OptLevel {
    O0,
    O1,
    O2,
    O3,
    O4,
    Os,
    Oz,
}

/// Debug-information level named by a `-g` flag. `NoDebug` and `G0` both
/// mean that no debug information is kept.
#[derive(Debug, Clone, Copy, PartialEq, Eq, Structural)]
pub enum DebugLevel {
    NoDebug,
    G0,
    G1,
    G2,
    G3,
}

/// Settings derived from the flags of one invocation.
#[derive(Debug, Clone, Copy, PartialEq, Eq, Structural)]
pub struct BuildSettings {
    pub opt_level: OptLevel,
    pub debug_level: DebugLevel,
    pub use_wasm_opt: bool,
}

/// Where the LLVM tools are found.
#[derive(Debug, Clone)]
pub enum LlvmLocation {
    /// A location the user named; always honoured.
    UserProvided(String),
    /// The built-in location; when it holds no `bin` directory, the tools
    /// of the ambient environment are used instead.
    DefaultPath(String),
}

pub open spec fn bin_tool(dir: Seq<char>, tool: Seq<char>) -> Seq<char> {
    joined(joined(dir, "bin"@), tool)
}

/// The name of a tool of the fixed LLVM version found on the search path.
pub open spec fn versioned_tool(tool: Seq<char>) -> Seq<char> {
    tool + "-21"@
}

impl LlvmLocation {
    pub open spec fn dir(self) -> Seq<char> {
        match self {
            LlvmLocation::UserProvided(p) => p@,
            LlvmLocation::DefaultPath(p) => p@,
        }
    }

    /// The path of `tool`, given whether the location's `bin` directory
    /// exists.
    pub open spec fn spec_tool_path(self, tool: Seq<char>, bin_exists: bool) -> Seq<char> {
        match self {
            LlvmLocation::UserProvided(p) => bin_tool(p@, tool),
            LlvmLocation::DefaultPath(p) => if bin_exists {
                bin_tool(p@, tool)
            } else {
                versioned_tool(tool)
            },
        }
    }

    /// The path of `tool` once it is known whether the location's `bin`
    /// directory exists.
    pub fn tool_path_given(&self, tool: &str, bin_exists: bool) -> (r: String)
        ensures
            r@ == self.spec_tool_path(tool@, bin_exists),
    {
        match self {
            LlvmLocation::UserProvided(p) => {
                let bin = join_path(p.as_str(), "bin");
                join_path(bin.as_str(), tool)
            },
            LlvmLocation::DefaultPath(p) => {
                if bin_exists {
                    let bin = join_path(p.as_str(), "bin");
                    join_path(bin.as_str(), tool)
                } else {
                    concat(tool, "-21")
                }
            },
        }
    }

    /// Whether tools are looked up on the search path instead of in the
    /// location, given whether the location's `bin` directory exists: only
    /// a default location without one falls back.
    pub open spec fn spec_falls_back(self, bin_exists: bool) -> bool {
        self is DefaultPath && !bin_exists
    }

    /// Whether tools are looked up on the search path because the default
    /// location holds no `bin` directory.
    pub fn falls_back(&self) -> (r: bool)
        ensures
            r == self.spec_falls_back(true) || r == self.spec_falls_back(false),
            self is UserProvided ==> !r,
    {
        match self {
            LlvmLocation::UserProvided(_) => false,
            LlvmLocation::DefaultPath(p) => {
                let bin = join_path(p.as_str(), "bin");
                !path_exists(bin.as_str())
            },
        }
    }

    /// The path of `tool`: inside the location's `bin` directory, except
    /// for a default location without one, where the versioned tool name
    /// is used.
    pub fn get_tool_path(&self, tool: &str) -> (r: String)
        ensures
            r@ == self.spec_tool_path(tool@, true) || r@ == self.spec_tool_path(tool@, false),
            self is UserProvided ==> r@ == bin_tool(self.dir(), tool@),
    {
        let bin_exists = match self {
            LlvmLocation::UserProvided(_) => true,
            LlvmLocation::DefaultPath(p) => {
                let bin = join_path(p.as_str(), "bin");
                path_exists(bin.as_str())
            },
        };
        self.tool_path_given(tool, bin_exists)
    }
}

/// The part of the user settings that classification may change.
pub struct Toggles {
    pub wasm_exceptions: bool,
    pub pic: bool,
    pub module_kind: Option<ModuleKind>,
}

/// Settings supplied by the user through `-sKEY=VALUE` arguments or the
/// environment. Classification fills in some of them from the flags.
#[derive(Debug)]
pub struct UserSettings {
    pub sysroot_location: Option<String>,
    pub sysroot_prefix: Option<String>,
    pub llvm_location: LlvmLocation,
    pub extra_compiler_flags: Vec<String>,
    pub extra_compiler_post_flags: Vec<String>,
    pub extra_compiler_flags_c: Vec<String>,
    pub extra_compiler_post_flags_c: Vec<String>,
    pub extra_compiler_flags_cxx: Vec<String>,
    pub extra_compiler_post_flags_cxx: Vec<String>,
    pub extra_linker_flags: Vec<String>,
    pub include_cpp_symbols: bool,
    pub run_wasm_opt: Option<bool>,
    pub wasm_opt_flags: Vec<String>,
    pub wasm_opt_suppress_default: bool,
    pub wasm_opt_preserve_unoptimized: bool,
    pub module_kind: Option<ModuleKind>,
    pub wasm_exceptions: bool,
    pub pic: bool,
    pub link_symbolic: bool,
}

/// The sysroot prefix used when none is configured.
pub open spec fn default_sysroot_prefix() -> Seq<char> {
    "/lib/wasixcc/sysroot"@
}

/// The LLVM location used when none is configured.
pub open spec fn default_llvm_dir() -> Seq<char> {
    "/lib/wasixcc/llvm"@
}

/// The sysroot directory for a prefix and the exception and PIC switches;
/// PIC without exceptions has none.
pub open spec fn sysroot_for(prefix: Seq<char>, wasm_exceptions: bool, pic: bool) -> Option<
    Seq<char>,
> {
    if wasm_exceptions && pic {
        Some(joined(prefix, "sysroot-ehpic"@))
    } else if wasm_exceptions {
        Some(joined(prefix, "sysroot-eh"@))
    } else if pic {
        None
    } else {
        Some(joined(prefix, "sysroot"@))
    }
}

/// Module kind resolution: an explicit kind wins; otherwise PIC means a
/// dynamic main and its absence a static main.
pub open spec fn resolve_kind(kind: Option<ModuleKind>, pic: bool) -> ModuleKind {
    match kind {
        Some(k) => k,
        None => if pic {
            ModuleKind::DynamicMain
        } else {
            ModuleKind::StaticMain
        },
    }
}

impl UserSettings {
    pub open spec fn toggles(self) -> Toggles {
        Toggles { wasm_exceptions: self.wasm_exceptions, pic: self.pic, module_kind: self.module_kind }
    }

    pub open spec fn spec_module_kind(self) -> ModuleKind {
        resolve_kind(self.module_kind, self.pic)
    }

    pub open spec fn spec_sysroot_prefix(self) -> Seq<char> {
        match self.sysroot_prefix {
            Some(p) => p@,
            None => default_sysroot_prefix(),
        }
    }

    /// Where the sysroot is: the explicit location if there is one, else the
    /// directory under the prefix for the switches.
    pub open spec fn spec_sysroot_location(self) -> Option<Seq<char>> {
        match self.sysroot_location {
            Some(p) => Some(p@),
            None => sysroot_for(self.spec_sysroot_prefix(), self.wasm_exceptions, self.pic),
        }
    }

    /// The configured sysroot prefix, or the default one.
    pub fn sysroot_prefix(&self) -> (r: String)
        ensures
            r@ == self.spec_sysroot_prefix(),
    {
        match &self.sysroot_prefix {
            Some(p) => p.clone(),
            None => text("/lib/wasixcc/sysroot"),
        }
    }

    /// The sysroot location, or the error of an invalid combination.
    pub fn sysroot_location(&self) -> (r: Result<String, Error>)
        ensures
            match self.spec_sysroot_location() {
                Some(p) => r matches Ok(s) && s@ == p,
                None => r matches Err(Error::PicWithoutExceptions),
            },
    {
        match &self.sysroot_location {
            Some(p) => Ok(p.clone()),
            None => {
                let prefix = self.sysroot_prefix();
                if self.wasm_exceptions && self.pic {
                    Ok(join_path(prefix.as_str(), "sysroot-ehpic"))
                } else if self.wasm_exceptions {
                    Ok(join_path(prefix.as_str(), "sysroot-eh"))
                } else if self.pic {
                    Err(Error::PicWithoutExceptions)
                } else {
                    Ok(join_path(prefix.as_str(), "sysroot"))
                }
            },
        }
    }

    /// The outcome of resolving the sysroot once it is known whether the
    /// resolved location is a directory.
    pub open spec fn spec_checked_sysroot(self, is_dir: bool) -> Result<Seq<char>, Fault> {
        match self.spec_sysroot_location() {
            None => Err(Fault::PicWithoutExceptions),
            Some(p) => if is_dir {
                Ok(p)
            } else {
                Err(Fault::MissingSysroot(p))
            },
        }
    }

    /// The sysroot location given whether it is a directory: the location
    /// when it is, the missing-sysroot error when it is not, and the error
    /// of an invalid combination whatever the answer.
    pub fn sysroot_given(&self, is_dir: bool) -> (r: Result<String, Error>)
        ensures
            match self.spec_checked_sysroot(is_dir) {
                Ok(p) => r matches Ok(s) && s@ == p,
                Err(f) => r matches Err(e) && e@ == f,
            },
    {
        let sysroot = match self.sysroot_location() {
            Ok(s) => s,
            Err(e) => {
                return Err(e);
            },
        };
        if is_dir {
            Ok(sysroot)
        } else {
            Err(Error::MissingSysroot(sysroot))
        }
    }

    /// The sysroot location, after checking that it is a directory.
    pub fn ensure_sysroot_location(&self) -> (r: Result<String, Error>)
        ensures
            match self.spec_sysroot_location() {
                Some(p) => (r matches Ok(s) && s@ == p) || (r matches Err(Error::MissingSysroot(
                    s,
                )) && s@ == p),
                None => r matches Err(Error::PicWithoutExceptions),
            },
    {
        let is_dir = match self.sysroot_location() {
            Ok(s) => path_is_dir(s.as_str()),
            Err(_) => false,
        };
        self.sysroot_given(is_dir)
    }

    /// The module kind to build.
    pub fn module_kind(&self) -> (r: ModuleKind)
        ensures
            r == self.spec_module_kind(),
    {
        match self.module_kind {
            Some(kind) => kind,
            None => if self.pic {
                ModuleKind::DynamicMain
            } else {
                ModuleKind::StaticMain
            },
        }
    }
}

impl Default for UserSettings {
    /// Settings with every list empty, every switch off, nothing explicit,
    /// and the default LLVM location.
    fn default() -> (r: Self)
        ensures
            r.sysroot_location is None,
            r.sysroot_prefix is None,
            r.llvm_location matches LlvmLocation::DefaultPath(p) && p@ == default_llvm_dir(),
            r.extra_compiler_flags@.len() == 0,
            r.extra_compiler_post_flags@.len() == 0,
            r.extra_compiler_flags_c@.len() == 0,
            r.extra_compiler_post_flags_c@.len() == 0,
            r.extra_compiler_flags_cxx@.len() == 0,
            r.extra_compiler_post_flags_cxx@.len() == 0,
            r.extra_linker_flags@.len() == 0,
            !r.include_cpp_symbols,
            r.run_wasm_opt is None,
            r.wasm_opt_flags@.len() == 0,
            !r.wasm_opt_suppress_default,
            !r.wasm_opt_preserve_unoptimized,
            r.module_kind is None,
            !r.wasm_exceptions,
            !r.pic,
            !r.link_symbolic,
    {
        UserSettings {
            sysroot_location: None,
            sysroot_prefix: None,
            llvm_location: LlvmLocation::DefaultPath(text("/lib/wasixcc/llvm")),
            extra_compiler_flags: Vec::new(),
            extra_compiler_post_flags: Vec::new(),
            extra_compiler_flags_c: Vec::new(),
            extra_compiler_post_flags_c: Vec::new(),
            extra_compiler_flags_cxx: Vec::new(),
            extra_compiler_post_flags_cxx: Vec::new(),
            extra_linker_flags: Vec::new(),
            include_cpp_symbols: false,
            run_wasm_opt: None,
            wasm_opt_flags: Vec::new(),
            wasm_opt_suppress_default: false,
            wasm_opt_preserve_unoptimized: false,
            module_kind: None,
            wasm_exceptions: false,
            pic: false,
            link_symbolic: false,
        }
    }
}

} // verus!
