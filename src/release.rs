//! Release selection for downloading the sysroot and the LLVM toolchain:
//! which release, which assets, and where they go. Fetching and unpacking
//! them is up to the caller.
use vstd::prelude::*;

use crate::config::UserSettings;
use crate::error::Error;
use crate::text::{concat, has_prefix, same_text, text};

verus! {

/// Which release to download from.
#[derive(Debug, Clone, PartialEq, Eq)]
pub enum TagSpec {
    Latest,
    Tag(String),
}

/// Which sysroot release to download from; tags start with `v`.
#[derive(Debug, Clone, PartialEq, Eq)]
pub enum SysrootSpec {
    Latest,
    Tag(String),
}

/// The part of a release API address that selects the release.
pub open spec fn release_postfix(tag: Option<Seq<char>>) -> Seq<char> {
    match tag {
        None => "latest"@,
        Some(t) => "tags/"@ + t,
    }
}

impl TagSpec {
    pub open spec fn tag(&self) -> Option<Seq<char>> {
        match self {
            TagSpec::Latest => None,
            TagSpec::Tag(t) => Some(t@),
        }
    }

    /// Reads a release specification: `latest`, or a tag starting with `v`
    /// or `version_`.
    pub fn parse(s: &str) -> (r: Result<TagSpec, Error>)
        ensures
            s@ == "latest"@ ==> r matches Ok(TagSpec::Latest),
            s@ != "latest"@ && ("v"@.is_prefix_of(s@) || "version_"@.is_prefix_of(s@)) ==> (
            r matches Ok(TagSpec::Tag(t)) && t@ == s@),
            s@ != "latest"@ && !"v"@.is_prefix_of(s@) && !"version_"@.is_prefix_of(s@) ==> (
            r matches Err(Error::InvalidTag(t)) && t@ == s@),
    {
        if same_text(s, "latest") {
            Ok(TagSpec::Latest)
        } else if has_prefix(s, "v") || has_prefix(s, "version_") {
            Ok(TagSpec::Tag(text(s)))
        } else {
            Err(Error::InvalidTag(text(s)))
        }
    }

    /// The part of the release API address that selects this release.
    pub fn display_github_url_postfix(&self) -> (r: String)
        ensures
            r@ == release_postfix(self.tag()),
    {
        match self {
            TagSpec::Latest => text("latest"),
            TagSpec::Tag(tag) => concat("tags/", tag.as_str()),
        }
    }
}

impl SysrootSpec {
    pub open spec fn tag(&self) -> Option<Seq<char>> {
        match self {
            SysrootSpec::Latest => None,
            SysrootSpec::Tag(t) => Some(t@),
        }
    }

    /// Reads a sysroot release specification: `latest`, or a tag starting
    /// with `v`.
    pub fn parse(s: &str) -> (r: Result<SysrootSpec, Error>)
        ensures
            s@ == "latest"@ ==> r matches Ok(SysrootSpec::Latest),
            s@ != "latest"@ && "v"@.is_prefix_of(s@) ==> (r matches Ok(SysrootSpec::Tag(t))
                && t@ == s@),
            s@ != "latest"@ && !"v"@.is_prefix_of(s@) ==> (r matches Err(Error::InvalidTag(t))
                && t@ == s@),
    {
        if same_text(s, "latest") {
            Ok(SysrootSpec::Latest)
        } else if has_prefix(s, "v") {
            Ok(SysrootSpec::Tag(text(s)))
        } else {
            Err(Error::InvalidTag(text(s)))
        }
    }

    /// The part of the release API address that selects this release.
    pub fn display_github_url_postfix(&self) -> (r: String)
        ensures
            r@ == release_postfix(self.tag()),
    {
        match self {
            SysrootSpec::Latest => text("latest"),
            SysrootSpec::Tag(tag) => concat("tags/", tag.as_str()),
        }
    }
}

/// The release API address of a repository's release.
pub open spec fn release_url(repo: Seq<char>, tag: Option<Seq<char>>) -> Seq<char> {
    "https://api.github.com/repos/"@ + repo + "/releases/"@ + release_postfix(tag)
}

fn release_url_of(repo: &str, postfix: &str) -> (r: String)
    ensures
        r@ == "https://api.github.com/repos/"@ + repo@ + "/releases/"@ + postfix@,
{
    let a = concat("https://api.github.com/repos/", repo);
    let b = concat(a.as_str(), "/releases/");
    concat(b.as_str(), postfix)
}

/// What to download for a sysroot: three assets of one release, unpacked
/// under the sysroot prefix.
#[derive(Debug)]
pub struct SysrootDownload {
    pub release_url: String,
    pub asset_names: Vec<String>,
    pub target_dir: String,
    /// The configured explicit sysroot location, which downloading ignores.
    pub ignored_location: Option<String>,
}

/// What to download for the LLVM toolchain: one asset of one release,
/// unpacked into the LLVM location.
#[derive(Debug)]
pub struct LlvmDownload {
    pub release_url: String,
    pub asset_name: String,
    pub target_dir: String,
}

/// Selects the sysroot release assets and where they go.
pub fn download_sysroot(tag_spec: TagSpec, user_settings: &UserSettings) -> (r: SysrootDownload)
    ensures
        r.release_url@ == release_url("wasix-org/wasix-libc"@, tag_spec.tag()),
        r.asset_names.deep_view() == seq![
            "sysroot.tar.gz"@,
            "sysroot-eh.tar.gz"@,
            "sysroot-ehpic.tar.gz"@,
        ],
        r.target_dir@ == user_settings.spec_sysroot_prefix(),
        r.ignored_location == user_settings.sysroot_location,
{
    let postfix = tag_spec.display_github_url_postfix();
    let release_url = release_url_of("wasix-org/wasix-libc", postfix.as_str());
    let mut asset_names: Vec<String> = Vec::new();
    crate::text::push_text(&mut asset_names, "sysroot.tar.gz");
    crate::text::push_text(&mut asset_names, "sysroot-eh.tar.gz");
    crate::text::push_text(&mut asset_names, "sysroot-ehpic.tar.gz");
    assert(asset_names.deep_view() =~= seq![
        "sysroot.tar.gz"@,
        "sysroot-eh.tar.gz"@,
        "sysroot-ehpic.tar.gz"@,
    ]);
    SysrootDownload {
        release_url,
        asset_names,
        target_dir: user_settings.sysroot_prefix(),
        ignored_location: user_settings.sysroot_location.clone(),
    }
}

/// The LLVM toolchain asset for an operating system and architecture.
pub open spec fn llvm_asset(os: Seq<char>, arch: Seq<char>) -> Option<Seq<char>> {
    if os == "linux"@ && arch == "x86_64"@ {
        Some("LLVM-Linux-x86_64.tar.gz"@)
    } else if os == "linux"@ && arch == "aarch64"@ {
        Some("LLVM-Linux-aarch64.tar.gz"@)
    } else if os == "macos"@ && arch == "x86_64"@ {
        Some("LLVM-MacOS-x86_64.tar.gz"@)
    } else if os == "macos"@ && arch == "aarch64"@ {
        Some("LLVM-MacOS-aarch64.tar.gz"@)
    } else {
        None
    }
}

/// The LLVM toolchain asset for an operating system and architecture, or
/// the error that there is none.
pub fn get_llvm_asset_name(os: &str, arch: &str) -> (r: Result<String, Error>)
    ensures
        match llvm_asset(os@, arch@) {
            Some(a) => r matches Ok(s) && s@ == a,
            None => r matches Err(Error::UnsupportedPlatform(o, a)) && o@ == os@ && a@ == arch@,
        },
{
    let linux = same_text(os, "linux");
    let macos = same_text(os, "macos");
    let x86 = same_text(arch, "x86_64");
    let arm = same_text(arch, "aarch64");
    if linux && x86 {
        Ok(text("LLVM-Linux-x86_64.tar.gz"))
    } else if linux && arm {
        Ok(text("LLVM-Linux-aarch64.tar.gz"))
    } else if macos && x86 {
        Ok(text("LLVM-MacOS-x86_64.tar.gz"))
    } else if macos && arm {
        Ok(text("LLVM-MacOS-aarch64.tar.gz"))
    } else {
        Err(Error::UnsupportedPlatform(text(os), text(arch)))
    }
}

/// Selects the LLVM toolchain release asset for the platform and where it
/// goes.
pub fn download_llvm(tag_spec: TagSpec, user_settings: &UserSettings, os: &str, arch: &str) -> (r:
    Result<LlvmDownload, Error>)
    ensures
        match llvm_asset(os@, arch@) {
            Some(a) => r matches Ok(d) && d.asset_name@ == a && d.release_url@ == release_url(
                "wasix-org/llvm-project"@,
                tag_spec.tag(),
            ) && d.target_dir@ == user_settings.llvm_location.dir(),
            None => r matches Err(Error::UnsupportedPlatform(o, a)) && o@ == os@ && a@ == arch@,
        },
{
    let asset_name = match get_llvm_asset_name(os, arch) {
        Ok(a) => a,
        Err(e) => {
            return Err(e);
        },
    };
    let postfix = tag_spec.display_github_url_postfix();
    let release_url = release_url_of("wasix-org/llvm-project", postfix.as_str());
    let target_dir = match &user_settings.llvm_location {
        crate::config::LlvmLocation::DefaultPath(p) => p.clone(),
        crate::config::LlvmLocation::UserProvided(p) => p.clone(),
    };
    Ok(LlvmDownload { release_url, asset_name, target_dir })
}

/// The directory a sysroot archive's top directory is installed as: the
/// archive's `wasix-sysroot<suffix>` becomes `sysroot<suffix>`; other names
/// are not sysroot archives.
pub fn sysroot_dir_for(unpacked: &str) -> (r: Option<String>)
    ensures
        "wasix-sysroot"@.is_prefix_of(unpacked@) ==> (r matches Some(d) && d@ == "sysroot"@
            + unpacked@.subrange(13, unpacked@.len() as int)),
        !"wasix-sysroot"@.is_prefix_of(unpacked@) ==> r is None,
{
    proof {
        reveal_strlit("wasix-sysroot");
    }
    if !has_prefix(unpacked, "wasix-sysroot") {
        return None;
    }
    let suffix = crate::text::text_after(unpacked, 13);
    Some(concat("sysroot", suffix.as_str()))
}

} // verus!
