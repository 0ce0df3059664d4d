//! The naming rules of native addon linking at build time: how Rust target
//! names map to the names the Bare tooling uses, which entry script is
//! bundled, and which libraries are linked.
use vstd::prelude::*;

verus! {

/// Whether two strings are equal.
pub fn str_eq(a: &str, b: &str) -> (eq: bool)
    ensures
        eq == (a@ == b@),
{
    let n = a.unicode_len();
    if n != b.unicode_len() {
        return false;
    }
    let mut i: usize = 0;
    while i < n
        invariant
            n == a@.len() == b@.len(),
            i <= n,
            a@.take(i as int) == b@.take(i as int),
        decreases n - i,
    {
        if a.get_char(i) != b.get_char(i) {
            assert(a@[i as int] != b@[i as int]);
            return false;
        }
        assert(a@.take(i + 1) =~= a@.take(i as int).push(a@[i as int]));
        assert(b@.take(i + 1) =~= b@.take(i as int).push(b@[i as int]));
        i = i + 1;
    }
    assert(a@ =~= a@.take(n as int));
    assert(b@ =~= b@.take(n as int));
    true
}

/// Whether `s` begins with `prefix`.
pub fn starts_with(s: &str, prefix: &str) -> (r: bool)
    ensures
        r == (prefix@.len() <= s@.len() && s@.take(prefix@.len() as int) == prefix@),
{
    let n = prefix.unicode_len();
    let len = s.unicode_len();
    if n > len {
        return false;
    }
    let head = s.substring_char(0, n);
    str_eq(head, prefix)
}

/// Whether `s` ends with `suffix`.
pub fn ends_with(s: &str, suffix: &str) -> (r: bool)
    ensures
        r == (suffix@.len() <= s@.len() && s@.skip(s@.len() - suffix@.len()) == suffix@),
{
    let n = suffix.unicode_len();
    let len = s.unicode_len();
    if n > len {
        return false;
    }
    let tail = s.substring_char(len - n, len);
    assert(tail@ =~= s@.skip(len - n));
    str_eq(tail, suffix)
}

/// The platform name of the Bare tooling for a Rust target OS.
pub open spec fn node_platform_name(os: Seq<char>) -> Seq<char> {
    if os == "macos"@ {
        "darwin"@
    } else if os == "windows"@ {
        "win32"@
    } else {
        os
    }
}

/// The platform name of the Bare tooling for the Rust target OS `os`.
pub fn node_platform(os: &str) -> (name: String)
    ensures
        name@ == node_platform_name(os@),
{
    if str_eq(os, "macos") {
        String::from_str("darwin")
    } else if str_eq(os, "windows") {
        String::from_str("win32")
    } else {
        String::from_str(os)
    }
}

/// The architecture name of the Bare tooling for a Rust target
/// architecture, if it is supported.
pub open spec fn node_arch_name(arch: Seq<char>) -> Option<Seq<char>> {
    if arch == "arm"@ {
        Some("arm"@)
    } else if arch == "aarch64"@ {
        Some("arm64"@)
    } else if arch == "i686"@ {
        Some("ia32"@)
    } else if arch == "x86_64"@ {
        Some("x64"@)
    } else {
        None
    }
}

/// The architecture name of the Bare tooling for the Rust target
/// architecture `arch`; `None` when it is not supported.
pub fn node_arch(arch: &str) -> (name: Option<String>)
    ensures
        match node_arch_name(arch@) {
            Some(n) => name matches Some(s) && s@ == n,
            None => name.is_none(),
        },
{
    if str_eq(arch, "arm") {
        Some(String::from_str("arm"))
    } else if str_eq(arch, "aarch64") {
        Some(String::from_str("arm64"))
    } else if str_eq(arch, "i686") {
        Some(String::from_str("ia32"))
    } else if str_eq(arch, "x86_64") {
        Some(String::from_str("x64"))
    } else {
        None
    }
}

/// Whether the platform bundles the linked addons as application resources
/// (the desktop platforms).
pub fn bundles_resources(platform: &str) -> (r: bool)
    ensures
        r == (platform@ == "darwin"@ || platform@ == "linux"@ || platform@ == "win32"@),
{
    str_eq(platform, "darwin") || str_eq(platform, "linux") || str_eq(platform, "win32")
}

/// The host name the Bare tooling builds for: platform and architecture,
/// marked when it is a simulator.
pub open spec fn host_name(platform: Seq<char>, arch: Seq<char>, simulator: bool) -> Seq<char> {
    platform + "-"@ + arch + if simulator {
        "-simulator"@
    } else {
        Seq::<char>::empty()
    }
}

/// The host name the Bare tooling builds for.
pub fn host(platform: &str, arch: &str, simulator: bool) -> (name: String)
    ensures
        name@ == host_name(platform@, arch@, simulator),
{
    let mut name = String::from_str(platform);
    name.append("-");
    name.append(arch);
    if simulator {
        name.append("-simulator");
    }
    assert(name@ =~= host_name(platform@, arch@, simulator));
    name
}

/// The Xcode architecture for a Bare architecture, on iOS.
pub open spec fn ios_arch_name(arch: Seq<char>) -> Option<Seq<char>> {
    if arch == "arm64"@ {
        Some("arm64"@)
    } else if arch == "x64"@ {
        Some("x86_64"@)
    } else {
        None
    }
}

/// The Xcode architecture for the Bare architecture `arch`; `None` when iOS
/// does not support it.
pub fn ios_arch(arch: &str) -> (name: Option<String>)
    ensures
        match ios_arch_name(arch@) {
            Some(n) => name matches Some(s) && s@ == n,
            None => name.is_none(),
        },
{
    if str_eq(arch, "arm64") {
        Some(String::from_str("arm64"))
    } else if str_eq(arch, "x64") {
        Some(String::from_str("x86_64"))
    } else {
        None
    }
}

/// The Android ABI for a Bare architecture.
pub open spec fn android_abi_name(arch: Seq<char>) -> Option<Seq<char>> {
    if arch == "arm"@ {
        Some("armeabi-v7a"@)
    } else if arch == "arm64"@ {
        Some("arm64-v8a"@)
    } else if arch == "ia32"@ {
        Some("x86"@)
    } else if arch == "x64"@ {
        Some("x86_64"@)
    } else {
        None
    }
}

/// The Android ABI for the Bare architecture `arch`; `None` when Android
/// does not support it.
pub fn android_abi(arch: &str) -> (name: Option<String>)
    ensures
        match android_abi_name(arch@) {
            Some(n) => name matches Some(s) && s@ == n,
            None => name.is_none(),
        },
{
    if str_eq(arch, "arm") {
        Some(String::from_str("armeabi-v7a"))
    } else if str_eq(arch, "arm64") {
        Some(String::from_str("arm64-v8a"))
    } else if str_eq(arch, "ia32") {
        Some(String::from_str("x86"))
    } else if str_eq(arch, "x64") {
        Some(String::from_str("x86_64"))
    } else {
        None
    }
}

/// The number of places an entry script is looked for.
pub const ENTRY_CANDIDATE_COUNT: usize = 6;

/// The places, relative to the project, where the entry script is looked
/// for, in order.
pub open spec fn entry_candidate_path(index: int) -> Seq<char> {
    if index == 0 {
        "bare/app.js"@
    } else if index == 1 {
        "bare/dist/app.js"@
    } else if index == 2 {
        "bare/src/app.js"@
    } else if index == 3 {
        "src-bare/app.js"@
    } else if index == 4 {
        "src-bare/dist/app.js"@
    } else {
        "src-bare/src/app.js"@
    }
}

/// The place, relative to the project, where the entry script is looked for
/// at position `index` of the search order.
pub fn entry_candidate(index: usize) -> (path: &'static str)
    requires
        index < ENTRY_CANDIDATE_COUNT,
    ensures
        path@ == entry_candidate_path(index as int),
{
    if index == 0 {
        "bare/app.js"
    } else if index == 1 {
        "bare/dist/app.js"
    } else if index == 2 {
        "bare/src/app.js"
    } else if index == 3 {
        "src-bare/app.js"
    } else if index == 4 {
        "src-bare/dist/app.js"
    } else {
        "src-bare/src/app.js"
    }
}

/// The entry script that is bundled: the first candidate that exists, given
/// which candidates exist; `None` when none does.
pub fn select_entry(exists: &[bool]) -> (choice: Option<usize>)
    ensures
        match choice {
            Some(i) => i < exists@.len() && exists@[i as int] && forall|j: int|
                0 <= j < i ==> !exists@[j],
            None => forall|j: int| 0 <= j < exists@.len() ==> !exists@[j],
        },
{
    let mut i: usize = 0;
    while i < exists.len()
        invariant
            i <= exists@.len(),
            forall|j: int| 0 <= j < i ==> !exists@[j],
        decreases exists@.len() - i,
    {
        if exists[i] {
            return Some(i);
        }
        i = i + 1;
    }
    None
}

/// `s` with every backslash doubled.
pub open spec fn escape_backslashes(s: Seq<char>) -> Seq<char>
    decreases s.len(),
{
    if s.len() == 0 {
        s
    } else {
        escape_backslashes(s.drop_last()) + if s.last() == '\\' {
            seq!['\\', '\\']
        } else {
            seq![s.last()]
        }
    }
}

/// The Tauri configuration that bundles `resource_dir` as resources, in
/// JSON.
pub open spec fn tauri_config_text(resource_dir: Seq<char>) -> Seq<char> {
    "{ \"bundle\": { \"resources\": { \""@ + escape_backslashes(resource_dir)
        + "\": \"\" } } }"@
}

/// The Tauri configuration that bundles `resource_dir` as resources.
pub fn tauri_config(resource_dir: &str) -> (config: String)
    ensures
        config@ == tauri_config_text(resource_dir@),
{
    let mut out = String::new();
    out.append("{ \"bundle\": { \"resources\": { \"");
    let ghost head = out@;
    let n = resource_dir.unicode_len();
    let mut i: usize = 0;
    while i < n
        invariant
            n == resource_dir@.len(),
            i <= n,
            out@ == head + escape_backslashes(resource_dir@.take(i as int)),
        decreases n - i,
    {
        let c = resource_dir.get_char(i);
        proof {
            reveal_strlit("\\\\");
        }
        if c == '\\' {
            out.append("\\\\");
        } else {
            out.append(resource_dir.substring_char(i, i + 1));
        }
        assert(resource_dir@.take(i + 1).drop_last() =~= resource_dir@.take(i as int));
        assert(resource_dir@.subrange(i as int, i + 1) =~= seq![c]);
        i = i + 1;
    }
    assert(resource_dir@.take(n as int) =~= resource_dir@);
    out.append("\": \"\" } } }");
    assert(out@ =~= tauri_config_text(resource_dir@));
    out
}

/// The framework that a directory of linked addons names: its name without
/// the `.framework` suffix, if it has one.
pub fn framework_name(dir_name: &str) -> (name: Option<String>)
    ensures
        match name {
            Some(n) => dir_name@.len() >= 10 && dir_name@.skip(dir_name@.len() - 10)
                == ".framework"@ && n@ == dir_name@.take(dir_name@.len() - 10),
            None => !(dir_name@.len() >= 10 && dir_name@.skip(dir_name@.len() - 10)
                == ".framework"@),
        },
{
    proof {
        reveal_strlit(".framework");
    }
    if ends_with(dir_name, ".framework") {
        let len = dir_name.unicode_len();
        Some(String::from_str(dir_name.substring_char(0, len - 10)))
    } else {
        None
    }
}

/// The library that a linked shared object file names: `libNAME.so` names
/// `NAME`; other files name none.
pub fn shared_library_name(file_name: &str) -> (name: Option<String>)
    ensures
        match name {
            Some(n) => file_name@.len() >= 6 && file_name@.take(3) == "lib"@ && file_name@.skip(
                file_name@.len() - 3,
            ) == ".so"@ && n@ == file_name@.subrange(3, file_name@.len() - 3),
            None => !(file_name@.len() >= 3 && file_name@.take(3) == "lib"@ && file_name@.skip(
                file_name@.len() - 3,
            ) == ".so"@),
        },
{
    proof {
        reveal_strlit("lib");
        reveal_strlit(".so");
    }
    if starts_with(file_name, "lib") && ends_with(file_name, ".so") {
        let len = file_name.unicode_len();
        if len < 6 {
            proof {
                let k = (len - 3) as int;
                assert(file_name@.skip(k)[0] == '.');
                assert(file_name@.take(3)[k] == file_name@[k]);
                assert(false);
            }
            return None;
        }
        Some(String::from_str(file_name.substring_char(3, len - 3)))
    } else {
        None
    }
}

/// A place in the build: below the addon resources directory, or below the
/// directory the linking tool writes to, at a relative path whose segments
/// are separated by `/` (empty: the directory itself).
#[derive(Debug, PartialEq, Eq)]
pub enum BuildPath {
    Resources(String),
    Output(String),
}

/// The view of a [`BuildPath`].
pub enum BuildPathView {
    Resources(Seq<char>),
    Output(Seq<char>),
}

impl View for BuildPath {
    type V = BuildPathView;

    open spec fn view(&self) -> BuildPathView {
        match self {
            BuildPath::Resources(p) => BuildPathView::Resources(p@),
            BuildPath::Output(p) => BuildPathView::Output(p@),
        }
    }
}

/// The directory the linking tool writes the linked addons to.
#[derive(Debug, PartialEq, Eq)]
pub enum OutputDir {
    /// The addon resources directory.
    Resources,
    /// A directory below the crate's manifest directory, at the given
    /// relative path.
    Crate(String),
    /// The build script's output directory.
    BuildOut,
}

/// The view of an [`OutputDir`].
pub enum OutputDirView {
    Resources,
    Crate(Seq<char>),
    BuildOut,
}

impl View for OutputDir {
    type V = OutputDirView;

    open spec fn view(&self) -> OutputDirView {
        match self {
            OutputDir::Resources => OutputDirView::Resources,
            OutputDir::Crate(p) => OutputDirView::Crate(p@),
            OutputDir::BuildOut => OutputDirView::BuildOut,
        }
    }
}

/// One step of linking, after the linking tool ran.
#[derive(Debug, PartialEq, Eq)]
pub enum LinkStep {
    /// Copy a directory tree.
    CopyDir { from: BuildPath, to: BuildPath },
    /// Copy a file.
    CopyFile { from: BuildPath, to: BuildPath },
    /// Pass an argument to the linker.
    LinkArg(String),
    /// Search a directory for frameworks.
    SearchFrameworks(BuildPath),
    /// Search a directory for native libraries.
    SearchNative(BuildPath),
    /// Link a framework.
    LinkFramework(String),
    /// Link a native library.
    LinkLib(String),
    /// Link each framework directory found in a directory.
    LinkFrameworksIn(BuildPath),
    /// Link each shared library found in a directory.
    LinkLibrariesIn(BuildPath),
    /// Pass the module definition file to the linker.
    DefFile(BuildPath),
}

/// The view of a [`LinkStep`].
pub enum LinkStepView {
    CopyDir { from: BuildPathView, to: BuildPathView },
    CopyFile { from: BuildPathView, to: BuildPathView },
    LinkArg(Seq<char>),
    SearchFrameworks(BuildPathView),
    SearchNative(BuildPathView),
    LinkFramework(Seq<char>),
    LinkLib(Seq<char>),
    LinkFrameworksIn(BuildPathView),
    LinkLibrariesIn(BuildPathView),
    DefFile(BuildPathView),
}

impl View for LinkStep {
    type V = LinkStepView;

    open spec fn view(&self) -> LinkStepView {
        match self {
            LinkStep::CopyDir { from, to } => LinkStepView::CopyDir { from: from@, to: to@ },
            LinkStep::CopyFile { from, to } => LinkStepView::CopyFile { from: from@, to: to@ },
            LinkStep::LinkArg(a) => LinkStepView::LinkArg(a@),
            LinkStep::SearchFrameworks(p) => LinkStepView::SearchFrameworks(p@),
            LinkStep::SearchNative(p) => LinkStepView::SearchNative(p@),
            LinkStep::LinkFramework(n) => LinkStepView::LinkFramework(n@),
            LinkStep::LinkLib(n) => LinkStepView::LinkLib(n@),
            LinkStep::LinkFrameworksIn(p) => LinkStepView::LinkFrameworksIn(p@),
            LinkStep::LinkLibrariesIn(p) => LinkStepView::LinkLibrariesIn(p@),
            LinkStep::DefFile(p) => LinkStepView::DefFile(p@),
        }
    }
}

/// How the addons are linked on one target: the host the linking tool
/// builds for, where it writes, and the steps that follow.
#[derive(Debug, PartialEq, Eq)]
pub struct LinkPlan {
    pub host: String,
    pub output: OutputDir,
    pub steps: Vec<LinkStep>,
}

/// The view of a [`LinkPlan`].
pub struct LinkPlanView {
    pub host: Seq<char>,
    pub output: OutputDirView,
    pub steps: Seq<LinkStepView>,
}

impl View for LinkPlan {
    type V = LinkPlanView;

    open spec fn view(&self) -> LinkPlanView {
        LinkPlanView {
            host: self.host@,
            output: self.output@,
            steps: self.steps@.map_values(|s: LinkStep| s@),
        }
    }
}

/// The plan on each platform, once the architecture is known: `Err` names
/// an architecture the platform does not support; `Ok(None)` means the
/// platform links nothing.
pub open spec fn platform_plan(platform: Seq<char>, arch: Seq<char>, simulator: bool, profile: Seq<
    char,
>) -> Result<Option<LinkPlanView>, Seq<char>> {
    if platform == "darwin"@ {
        Ok(
            Some(
                LinkPlanView {
                    host: host_name(platform, arch, false),
                    output: OutputDirView::Resources,
                    steps: seq![
                        LinkStepView::LinkArg("-Wl,-rpath,@executable_path/"@),
                        LinkStepView::SearchFrameworks(BuildPathView::Resources(Seq::empty())),
                        LinkStepView::LinkFrameworksIn(BuildPathView::Resources(Seq::empty())),
                    ],
                },
            ),
        )
    } else if platform == "ios"@ {
        match ios_arch_name(arch) {
            None => Err(arch),
            Some(xcode_arch) => Ok(
                Some(
                    LinkPlanView {
                        host: host_name(platform, arch, simulator),
                        output: OutputDirView::Crate(
                            "gen/apple/Externals/"@ + xcode_arch + "/"@ + profile,
                        ),
                        steps: seq![
                            LinkStepView::CopyDir {
                                from: BuildPathView::Resources("BareKit.framework"@),
                                to: BuildPathView::Output("BareKit.framework"@),
                            },
                            LinkStepView::SearchFrameworks(BuildPathView::Output(Seq::empty())),
                            LinkStepView::LinkFramework("BareKit"@),
                        ],
                    },
                ),
            ),
        }
    } else if platform == "android"@ {
        match android_abi_name(arch) {
            None => Err(arch),
            Some(abi) => Ok(
                Some(
                    LinkPlanView {
                        host: host_name(platform, arch, false),
                        output: OutputDirView::Crate("gen/android/app/src/main/jniLibs"@),
                        steps: seq![
                            LinkStepView::CopyFile {
                                from: BuildPathView::Resources("libbare-kit.so"@),
                                to: BuildPathView::Output(abi + "/libbare-kit.so"@),
                            },
                            LinkStepView::CopyFile {
                                from: BuildPathView::Resources("libc++_shared.so"@),
                                to: BuildPathView::Output(abi + "/libc++_shared.so"@),
                            },
                            LinkStepView::SearchNative(BuildPathView::Output(abi)),
                            LinkStepView::LinkLib("bare-kit"@),
                        ],
                    },
                ),
            ),
        }
    } else if platform == "linux"@ {
        Ok(
            Some(
                LinkPlanView {
                    host: host_name(platform, arch, false),
                    output: OutputDirView::BuildOut,
                    steps: seq![
                        LinkStepView::CopyDir {
                            from: BuildPathView::Output("lib"@),
                            to: BuildPathView::Resources(Seq::empty()),
                        },
                        LinkStepView::LinkArg("-Wl,-rpath=$ORIGIN"@),
                        LinkStepView::SearchNative(BuildPathView::Resources(Seq::empty())),
                        LinkStepView::LinkLibrariesIn(BuildPathView::Resources(Seq::empty())),
                    ],
                },
            ),
        )
    } else if platform == "win32"@ {
        Ok(
            Some(
                LinkPlanView {
                    host: host_name(platform, arch, false),
                    output: OutputDirView::Resources,
                    steps: seq![LinkStepView::DefFile(BuildPathView::Resources("bare-kit.def"@))],
                },
            ),
        )
    } else {
        Ok(None)
    }
}

/// The plan for a Rust target: `Err` names an architecture that is not
/// supported (the Rust one when the Bare tooling does not know it).
pub open spec fn link_plan_spec(
    target_os: Seq<char>,
    target_arch: Seq<char>,
    simulator: bool,
    profile: Seq<char>,
) -> Result<Option<LinkPlanView>, Seq<char>> {
    match node_arch_name(target_arch) {
        None => Err(target_arch),
        Some(arch) => platform_plan(node_platform_name(target_os), arch, simulator, profile),
    }
}

fn resources(path: &str) -> (p: BuildPath)
    ensures
        p@ == BuildPathView::Resources(path@),
{
    BuildPath::Resources(String::from_str(path))
}

fn output(path: &str) -> (p: BuildPath)
    ensures
        p@ == BuildPathView::Output(path@),
{
    BuildPath::Output(String::from_str(path))
}

fn joined(a: &str, b: &str) -> (s: String)
    ensures
        s@ == a@ + b@,
{
    let mut s = String::from_str(a);
    s.append(b);
    s
}

fn plan(host: String, output: OutputDir, steps: Vec<LinkStep>) -> (p: LinkPlan)
    ensures
        p@ == (LinkPlanView {
            host: host@,
            output: output@,
            steps: steps@.map_values(|s: LinkStep| s@),
        }),
{
    LinkPlan { host, output, steps }
}

/// How the addons are linked on the Rust target `target_os` /
/// `target_arch` (`simulator`: an iOS simulator build; `profile`: the build
/// profile). `Err` names an unsupported architecture; `Ok(None)` means the
/// platform links nothing.
pub fn link_plan(target_os: &str, target_arch: &str, simulator: bool, profile: &str) -> (r: Result<
    Option<LinkPlan>,
    String,
>)
    ensures
        match link_plan_spec(target_os@, target_arch@, simulator, profile@) {
            Err(a) => r matches Err(e) && e@ == a,
            Ok(None) => r matches Ok(None),
            Ok(Some(v)) => r matches Ok(Some(p)) && p@ == v,
        },
{
    let arch = match node_arch(target_arch) {
        Some(arch) => arch,
        None => return Err(String::from_str(target_arch)),
    };
    let platform = node_platform(target_os);
    let p = platform.as_str();
    let a = arch.as_str();
    let empty = "";
    proof {
        reveal_strlit("");
    }
    assert(empty@ =~= Seq::<char>::empty());
    if str_eq(p, "darwin") {
        let mut steps: Vec<LinkStep> = Vec::new();
        steps.push(LinkStep::LinkArg(String::from_str("-Wl,-rpath,@executable_path/")));
        steps.push(LinkStep::SearchFrameworks(resources(empty)));
        steps.push(LinkStep::LinkFrameworksIn(resources(empty)));
        let r = plan(host(p, a, false), OutputDir::Resources, steps);
        assert(r@.steps =~= platform_plan(platform@, arch@, simulator, profile@)->Ok_0->Some_0.steps);
        Ok(Some(r))
    } else if str_eq(p, "ios") {
        let xcode_arch = match ios_arch(a) {
            Some(x) => x,
            None => return Err(arch),
        };
        let mut dir = String::from_str("gen/apple/Externals/");
        dir.append(xcode_arch.as_str());
        dir.append("/");
        dir.append(profile);
        let mut steps: Vec<LinkStep> = Vec::new();
        steps.push(
            LinkStep::CopyDir { from: resources("BareKit.framework"), to: output("BareKit.framework") },
        );
        steps.push(LinkStep::SearchFrameworks(output(empty)));
        steps.push(LinkStep::LinkFramework(String::from_str("BareKit")));
        let r = plan(host(p, a, simulator), OutputDir::Crate(dir), steps);
        assert(r@.steps =~= platform_plan(platform@, arch@, simulator, profile@)->Ok_0->Some_0.steps);
        assert(r@.output == platform_plan(platform@, arch@, simulator, profile@)->Ok_0->Some_0.output);
        Ok(Some(r))
    } else if str_eq(p, "android") {
        let abi = match android_abi(a) {
            Some(x) => x,
            None => return Err(arch),
        };
        let mut steps: Vec<LinkStep> = Vec::new();
        steps.push(
            LinkStep::CopyFile {
                from: resources("libbare-kit.so"),
                to: BuildPath::Output(joined(abi.as_str(), "/libbare-kit.so")),
            },
        );
        steps.push(
            LinkStep::CopyFile {
                from: resources("libc++_shared.so"),
                to: BuildPath::Output(joined(abi.as_str(), "/libc++_shared.so")),
            },
        );
        steps.push(LinkStep::SearchNative(output(abi.as_str())));
        steps.push(LinkStep::LinkLib(String::from_str("bare-kit")));
        let r = plan(
            host(p, a, false),
            OutputDir::Crate(String::from_str("gen/android/app/src/main/jniLibs")),
            steps,
        );
        assert(r@.steps =~= platform_plan(platform@, arch@, simulator, profile@)->Ok_0->Some_0.steps);
        Ok(Some(r))
    } else if str_eq(p, "linux") {
        let mut steps: Vec<LinkStep> = Vec::new();
        steps.push(LinkStep::CopyDir { from: output("lib"), to: resources(empty) });
        steps.push(LinkStep::LinkArg(String::from_str("-Wl,-rpath=$ORIGIN")));
        steps.push(LinkStep::SearchNative(resources(empty)));
        steps.push(LinkStep::LinkLibrariesIn(resources(empty)));
        let r = plan(host(p, a, false), OutputDir::BuildOut, steps);
        assert(r@.steps =~= platform_plan(platform@, arch@, simulator, profile@)->Ok_0->Some_0.steps);
        Ok(Some(r))
    } else if str_eq(p, "win32") {
        let mut steps: Vec<LinkStep> = Vec::new();
        steps.push(LinkStep::DefFile(resources("bare-kit.def")));
        let r = plan(host(p, a, false), OutputDir::Resources, steps);
        assert(r@.steps =~= platform_plan(platform@, arch@, simulator, profile@)->Ok_0->Some_0.steps);
        Ok(Some(r))
    } else {
        Ok(None)
    }
}

/// The host name of an iOS plan is `ios-`, the Bare architecture, and the
/// `-simulator` mark exactly on a simulator build; on every other platform
/// that links, it is the platform, `-` and the architecture, without the
/// mark, whatever the simulator flag says.
pub proof fn lemma_plan_host(platform: Seq<char>, arch: Seq<char>, simulator: bool, profile: Seq<char>)
    ensures
        platform == "ios"@ && ios_arch_name(arch) is Some ==> (platform_plan(
            platform,
            arch,
            simulator,
            profile,
        ) matches Ok(Some(v)) && v.host == "ios"@ + "-"@ + arch + (if simulator {
            "-simulator"@
        } else {
            Seq::<char>::empty()
        })),
        platform != "ios"@ ==> (platform_plan(platform, arch, simulator, profile) matches Ok(
            Some(v),
        ) ==> v.host == platform + "-"@ + arch),
{
    reveal_strlit("ios");
    reveal_strlit("darwin");
    if platform == "ios"@ {
        assert(platform != "darwin"@);
    }
    assert(Seq::<char>::empty() + Seq::<char>::empty() =~= Seq::<char>::empty());
    assert(platform + "-"@ + arch + Seq::<char>::empty() =~= platform + "-"@ + arch);
}

/// The search order of the entry script: first the `bare` directory, then
/// `src-bare`; in each, `app.js` itself, then the built `dist/app.js`, then
/// `src/app.js`.
pub proof fn lemma_entry_search_order(i: int)
    requires
        0 <= i < ENTRY_CANDIDATE_COUNT,
    ensures
        entry_candidate_path(i) == (if i < 3 {
            "bare/"@
        } else {
            "src-bare/"@
        }) + (if i % 3 == 0 {
            Seq::<char>::empty()
        } else if i % 3 == 1 {
            "dist/"@
        } else {
            "src/"@
        }) + "app.js"@,
{
    reveal_strlit("bare/");
    reveal_strlit("src-bare/");
    reveal_strlit("dist/");
    reveal_strlit("src/");
    reveal_strlit("app.js");
    reveal_strlit("bare/app.js");
    reveal_strlit("bare/dist/app.js");
    reveal_strlit("bare/src/app.js");
    reveal_strlit("src-bare/app.js");
    reveal_strlit("src-bare/dist/app.js");
    reveal_strlit("src-bare/src/app.js");
    let want = (if i < 3 {
        "bare/"@
    } else {
        "src-bare/"@
    }) + (if i % 3 == 0 {
        Seq::<char>::empty()
    } else if i % 3 == 1 {
        "dist/"@
    } else {
        "src/"@
    }) + "app.js"@;
    assert(entry_candidate_path(i) =~= want);
}

} // verus!
