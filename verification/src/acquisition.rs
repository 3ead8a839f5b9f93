//! Which build of the native runtime a target links, and the directives
//! that tell the build tool how to link it. Nothing here touches the file
//! system: the caller hands in what it has read and carries out what comes
//! back.

use vstd::prelude::*;
use vstd::string::{StrSliceExecFns, StringExecFns};

verus! {

/// How the runtime is linked on a system.
#[derive(Clone, Copy, Debug, PartialEq, Eq, Structural)]
pub enum Linkage {
    /// As an archive, into the program.
    Static,
    /// As a shared library, found again when the program starts.
    Dynamic,
}

/// The file of the prebuilt runtime for each target that has one.
pub open spec fn prebuilt_for(target: Seq<char>) -> Option<Seq<char>> {
    if target == "x86_64-unknown-linux-gnu"@ {
        Some("libclang_rt.rtsan_linux_x86_64.a"@)
    } else if target == "aarch64-unknown-linux-gnu"@ {
        Some("libclang_rt.rtsan_linux_aarch64.a"@)
    } else if target == "x86_64-apple-darwin"@ {
        Some("libclang_rt.rtsan_osx_dynamic.dylib"@)
    } else if target == "aarch64-apple-darwin"@ {
        Some("libclang_rt.rtsan_osx_dynamic.dylib"@)
    } else if target == "aarch64-apple-ios"@ {
        Some("libclang_rt.rtsan_ios_dynamic.dylib"@)
    } else if target == "x86_64-apple-ios"@ {
        Some("libclang_rt.rtsan_iossim_dynamic.dylib"@)
    } else {
        None
    }
}

/// The text of a file's name, where there is a file.
pub open spec fn name_of(file: Option<&'static str>) -> Option<Seq<char>> {
    match file {
        Some(name) => Some(name@),
        None => None,
    }
}

/// Static on Linux, dynamic on every other system.
pub open spec fn linkage_of(target_os: Seq<char>) -> Linkage {
    if target_os == "linux"@ {
        Linkage::Static
    } else {
        Linkage::Dynamic
    }
}

/// The extension of a library file of each linkage.
pub open spec fn extension_of(linkage: Linkage) -> Seq<char> {
    match linkage {
        Linkage::Static => "a"@,
        Linkage::Dynamic => "dylib"@,
    }
}

/// `s` without its leading copies of `p`, however many there are.
pub open spec fn without_leading(s: Seq<char>, p: Seq<char>) -> Seq<char>
    decreases s.len(),
{
    if 0 < p.len() <= s.len() && s.subrange(0, p.len() as int) == p {
        without_leading(s.subrange(p.len() as int, s.len() as int), p)
    } else {
        s
    }
}

/// `s` without its trailing copies of `p`, however many there are.
pub open spec fn without_trailing(s: Seq<char>, p: Seq<char>) -> Seq<char>
    decreases s.len(),
{
    if 0 < p.len() <= s.len() && s.subrange(s.len() - p.len(), s.len() as int) == p {
        without_trailing(s.subrange(0, s.len() - p.len()), p)
    } else {
        s
    }
}

/// The name by which the linker knows the library in `file`: the file's
/// name without `lib` in front and without the extension of its linkage
/// behind.
pub open spec fn link_name_of(file: Seq<char>, linkage: Linkage) -> Seq<char> {
    let stem = without_leading(file, "lib"@);
    match linkage {
        Linkage::Static => without_trailing(stem, ".a"@),
        Linkage::Dynamic => without_trailing(stem, ".dylib"@),
    }
}

/// Where the library comes from.
#[derive(Clone, Copy, Debug, PartialEq, Eq, Structural)]
pub enum Source {
    /// A file that the user names.
    Given,
    /// The prebuilt file for the target, downloaded.
    Prebuilt,
    /// A build of the runtime from its source.
    Built,
}

/// A file that the user names goes before a prebuilt one, and that before
/// a build from source.
pub open spec fn source_of(given: bool, prebuilt: bool) -> Source {
    if given {
        Source::Given
    } else if prebuilt {
        Source::Prebuilt
    } else {
        Source::Built
    }
}

/// The address of the prebuilt library in `file`.
pub open spec fn download_url_of(file: Seq<char>) -> Seq<char> {
    "https://github.com/realtime-sanitizer/rtsan-libs/releases/download/v20.1.1.1/"@ + file
}

/// Where a build from source leaves the library, seen from the directory
/// of the build.
pub open spec fn built_library_of(linkage: Linkage, target_arch: Seq<char>) -> Seq<char> {
    match linkage {
        Linkage::Static => "lib/linux/libclang_rt.rtsan-"@ + target_arch + ".a"@,
        Linkage::Dynamic => "lib/darwin/libclang_rt.rtsan_osx_dynamic.dylib"@,
    }
}

/// The directives that link the library in `file`, which lies in `dir`.
pub open spec fn link_lines(dir: Seq<char>, file: Seq<char>, linkage: Linkage) -> Seq<Seq<char>> {
    match linkage {
        Linkage::Static => seq![
            "cargo:rustc-link-search=native="@ + dir,
            "cargo:rustc-link-lib=static="@ + link_name_of(file, linkage),
        ],
        Linkage::Dynamic => seq![
            "cargo:rustc-link-search=native="@ + dir,
            "cargo:rustc-link-lib=dylib="@ + link_name_of(file, linkage),
            "cargo:rustc-link-arg=-Wl,-rpath,"@ + dir,
        ],
    }
}

/// The directives of a build for `target` in which detection is asked for
/// or not: the two conditions that the build may set are declared, the
/// build is run again when the request changes, a supported target is
/// marked as such, and a request is granted on a supported target and
/// refused on any other.
pub open spec fn detection_lines(target: Seq<char>, requested: bool) -> Seq<Seq<char>> {
    let declared = seq![
        "cargo::rustc-check-cfg=cfg(rtsan_enabled)"@,
        "cargo::rustc-check-cfg=cfg(rtsan_supported)"@,
        "cargo:rerun-if-env-changed=RTSAN_ENABLE"@,
    ];
    let supported = prebuilt_for(target).is_some();
    let marked = if supported {
        declared.push("cargo:rustc-cfg=rtsan_supported"@)
    } else {
        declared
    };
    if !requested {
        marked
    } else if supported {
        marked.push("cargo:warning=RealtimeSanitizer enabled"@).push(
            "cargo:rustc-cfg=rtsan_enabled"@,
        )
    } else {
        marked.push("cargo:error=Realtime Sanitizer not supported on target: "@ + target)
    }
}

/// The directives of the build that links the runtime, before it looks for
/// the library: the condition that the build may set is declared, the
/// build is run again when the request changes, and the condition is set
/// where the build links the runtime.
pub open spec fn binding_lines(target: Seq<char>, requested: bool) -> Seq<Seq<char>> {
    let declared = seq![
        "cargo::rustc-check-cfg=cfg(rtsan_enabled)"@,
        "cargo:rerun-if-env-changed=RTSAN_ENABLE"@,
    ];
    if requested && prebuilt_for(target).is_some() {
        declared.push("cargo:rustc-cfg=rtsan_enabled"@)
    } else {
        declared
    }
}

fn same_text(a: &str, b: &str) -> (same: bool)
    ensures
        same == (a@ == b@),
{
    let a = a.to_owned();
    let b = b.to_owned();
    a == b
}

/// Whether `p` stands in `s` at the position `at`.
fn stands_at(s: &str, at: usize, p: &str) -> (found: bool)
    requires
        at <= s@.len(),
    ensures
        found == (at + p@.len() <= s@.len() && s@.subrange(at as int, at + p@.len()) == p@),
{
    let n = s.unicode_len();
    let m = p.unicode_len();
    if m > n - at {
        return false;
    }
    let mut i: usize = 0;
    while i < m
        invariant
            i <= m,
            m == p@.len(),
            n == s@.len(),
            at + m <= n,
            forall|j: int| 0 <= j < i ==> s@[at + j] == p@[j],
        decreases m - i,
    {
        if s.get_char(at + i) != p.get_char(i) {
            return false;
        }
        i += 1;
    }
    assert(s@.subrange(at as int, at + m) =~= p@);
    true
}

/// `s` without its leading copies of `p`.
fn trim_leading<'a>(s: &'a str, p: &str) -> (rest: &'a str)
    requires
        p@.len() > 0,
    ensures
        rest@ == without_leading(s@, p@),
{
    let n = s.unicode_len();
    let m = p.unicode_len();
    let mut start: usize = 0;
    assert(s@.subrange(0, n as int) =~= s@);
    while stands_at(s, start, p)
        invariant
            start <= n,
            n == s@.len(),
            m == p@.len(),
            m > 0,
            without_leading(s@, p@) == without_leading(s@.subrange(start as int, n as int), p@),
        decreases n - start,
    {
        proof {
            let tail = s@.subrange(start as int, n as int);
            assert(tail.subrange(0, m as int) =~= s@.subrange(start as int, start + m));
            assert(tail.subrange(m as int, tail.len() as int) =~= s@.subrange(start + m, n as int));
        }
        start += m;
    }
    proof {
        let tail = s@.subrange(start as int, n as int);
        if m <= tail.len() {
            assert(tail.subrange(0, m as int) =~= s@.subrange(start as int, start + m));
        }
    }
    s.substring_char(start, n)
}

/// `s` without its trailing copies of `p`.
fn trim_trailing<'a>(s: &'a str, p: &str) -> (rest: &'a str)
    requires
        p@.len() > 0,
    ensures
        rest@ == without_trailing(s@, p@),
{
    let m = p.unicode_len();
    let mut end: usize = s.unicode_len();
    assert(s@.subrange(0, end as int) =~= s@);
    while m <= end && stands_at(s, end - m, p)
        invariant
            end <= s@.len(),
            m == p@.len(),
            m > 0,
            without_trailing(s@, p@) == without_trailing(s@.subrange(0, end as int), p@),
        decreases end,
    {
        proof {
            let front = s@.subrange(0, end as int);
            assert(front.subrange(front.len() - m, front.len() as int) =~= s@.subrange(
                end - m,
                end as int,
            ));
            assert(front.subrange(0, front.len() - m) =~= s@.subrange(0, end - m));
        }
        end -= m;
    }
    proof {
        let front = s@.subrange(0, end as int);
        if m <= front.len() {
            assert(front.subrange(front.len() - m, front.len() as int) =~= s@.subrange(
                end - m,
                end as int,
            ));
        }
    }
    s.substring_char(0, end)
}

/// The file of the prebuilt runtime for `target`, or `None` where the
/// runtime does not support the target.
pub fn prebuilt_library(target: &str) -> (file: Option<&'static str>)
    ensures
        name_of(file) == prebuilt_for(target@),
{
    if same_text(target, "x86_64-unknown-linux-gnu") {
        Some("libclang_rt.rtsan_linux_x86_64.a")
    } else if same_text(target, "aarch64-unknown-linux-gnu") {
        Some("libclang_rt.rtsan_linux_aarch64.a")
    } else if same_text(target, "x86_64-apple-darwin") {
        Some("libclang_rt.rtsan_osx_dynamic.dylib")
    } else if same_text(target, "aarch64-apple-darwin") {
        Some("libclang_rt.rtsan_osx_dynamic.dylib")
    } else if same_text(target, "aarch64-apple-ios") {
        Some("libclang_rt.rtsan_ios_dynamic.dylib")
    } else if same_text(target, "x86_64-apple-ios") {
        Some("libclang_rt.rtsan_iossim_dynamic.dylib")
    } else {
        None
    }
}

/// Whether the runtime supports `target`.
pub fn is_supported(target: &str) -> (supported: bool)
    ensures
        supported == prebuilt_for(target@).is_some(),
{
    prebuilt_library(target).is_some()
}

/// How the runtime is linked on the system `target_os`.
pub fn linkage(target_os: &str) -> (linkage: Linkage)
    ensures
        linkage == linkage_of(target_os@),
{
    if same_text(target_os, "linux") {
        Linkage::Static
    } else {
        Linkage::Dynamic
    }
}

/// Whether a build for `target` links the runtime: it does where detection
/// is asked for and the runtime supports the target.
pub fn links_runtime(target: &str, requested: bool) -> (links: bool)
    ensures
        links == (requested && prebuilt_for(target@).is_some()),
{
    requested && is_supported(target)
}

/// Where the library comes from: `given` says that the user names a file,
/// `prebuilt` that prebuilt files are wanted.
pub fn source(given: bool, prebuilt: bool) -> (source: Source)
    ensures
        source == source_of(given, prebuilt),
{
    if given {
        Source::Given
    } else if prebuilt {
        Source::Prebuilt
    } else {
        Source::Built
    }
}

/// The address from which the prebuilt library in `file` is fetched.
pub fn download_url(file: &str) -> (url: String)
    ensures
        url@ == download_url_of(file@),
{
    let mut url = String::from_str(
        "https://github.com/realtime-sanitizer/rtsan-libs/releases/download/v20.1.1.1/",
    );
    url.append(file);
    url
}

/// Where a build from source for the architecture `target_arch` leaves the
/// library, seen from the directory of the build.
pub fn built_library(linkage: Linkage, target_arch: &str) -> (path: String)
    ensures
        path@ == built_library_of(linkage, target_arch@),
{
    match linkage {
        Linkage::Static => {
            let mut path = String::from_str("lib/linux/libclang_rt.rtsan-");
            path.append(target_arch);
            path.append(".a");
            path
        },
        Linkage::Dynamic => String::from_str("lib/darwin/libclang_rt.rtsan_osx_dynamic.dylib"),
    }
}

/// The name by which the linker knows the library in `file`.
pub fn link_name(file: &str, linkage: Linkage) -> (name: String)
    ensures
        name@ == link_name_of(file@, linkage),
{
    proof {
        reveal_strlit("lib");
        reveal_strlit(".a");
        reveal_strlit(".dylib");
    }
    let stem = trim_leading(file, "lib");
    match linkage {
        Linkage::Static => String::from_str(trim_trailing(stem, ".a")),
        Linkage::Dynamic => String::from_str(trim_trailing(stem, ".dylib")),
    }
}

fn directive(key: &str, value: &str) -> (line: String)
    ensures
        line@ == key@ + value@,
{
    let mut line = String::from_str(key);
    line.append(value);
    line
}

/// The directives that link the library in `file`, which lies in `dir`.
pub fn link_directives(dir: &str, file: &str, linkage: Linkage) -> (lines: Vec<String>)
    ensures
        lines.deep_view() == link_lines(dir@, file@, linkage),
{
    let name = link_name(file, linkage);
    let mut lines: Vec<String> = Vec::new();
    lines.push(directive("cargo:rustc-link-search=native=", dir));
    match linkage {
        Linkage::Static => {
            lines.push(directive("cargo:rustc-link-lib=static=", name.as_str()));
        },
        Linkage::Dynamic => {
            lines.push(directive("cargo:rustc-link-lib=dylib=", name.as_str()));
            lines.push(directive("cargo:rustc-link-arg=-Wl,-rpath,", dir));
        },
    }
    lines
}

/// The directives of a build for `target` that decides whether detection
/// is compiled in; `requested` says that the user asks for it.
pub fn detection_directives(target: &str, requested: bool) -> (lines: Vec<String>)
    ensures
        lines.deep_view() == detection_lines(target@, requested),
{
    let supported = is_supported(target);
    let mut lines: Vec<String> = Vec::new();
    lines.push(String::from_str("cargo::rustc-check-cfg=cfg(rtsan_enabled)"));
    lines.push(String::from_str("cargo::rustc-check-cfg=cfg(rtsan_supported)"));
    lines.push(String::from_str("cargo:rerun-if-env-changed=RTSAN_ENABLE"));
    if supported {
        lines.push(String::from_str("cargo:rustc-cfg=rtsan_supported"));
    }
    if requested {
        if supported {
            lines.push(String::from_str("cargo:warning=RealtimeSanitizer enabled"));
            lines.push(String::from_str("cargo:rustc-cfg=rtsan_enabled"));
        } else {
            lines.push(directive("cargo:error=Realtime Sanitizer not supported on target: ", target));
        }
    }
    lines
}

/// The directives of the build that links the runtime, before it looks for
/// the library; `requested` says that the user asks for detection.
pub fn binding_directives(target: &str, requested: bool) -> (lines: Vec<String>)
    ensures
        lines.deep_view() == binding_lines(target@, requested),
{
    let mut lines: Vec<String> = Vec::new();
    lines.push(String::from_str("cargo::rustc-check-cfg=cfg(rtsan_enabled)"));
    lines.push(String::from_str("cargo:rerun-if-env-changed=RTSAN_ENABLE"));
    if links_runtime(target, requested) {
        lines.push(String::from_str("cargo:rustc-cfg=rtsan_enabled"));
    }
    lines
}

impl Linkage {
    /// The extension that a library file of this linkage has.
    pub fn extension(self) -> (extension: &'static str)
        ensures
            extension@ == extension_of(self),
    {
        match self {
            Linkage::Static => "a",
            Linkage::Dynamic => "dylib",
        }
    }

    /// Whether a library file with this extension, or with none, can be
    /// linked in this way.
    pub fn accepts(self, extension: Option<&str>) -> (accepted: bool)
        ensures
            accepted == (extension.is_some() && extension.unwrap()@ == extension_of(self)),
    {
        match extension {
            Some(found) => same_text(found, self.extension()),
            None => false,
        }
    }
}

} // verus!
