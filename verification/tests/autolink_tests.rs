use tauri_plugin_bare_kit::autolink::{
    android_abi, bundles_resources, ends_with, entry_candidate, framework_name, host, ios_arch,
    node_arch, node_platform, select_entry, shared_library_name, starts_with, str_eq,
    tauri_config, ENTRY_CANDIDATE_COUNT,
};

#[test]
fn target_names() {
    assert_eq!(node_platform("macos"), "darwin");
    assert_eq!(node_platform("windows"), "win32");
    assert_eq!(node_platform("linux"), "linux");
    assert_eq!(node_arch("aarch64"), Some("arm64".to_string()));
    assert_eq!(node_arch("i686"), Some("ia32".to_string()));
    assert_eq!(node_arch("x86_64"), Some("x64".to_string()));
    assert_eq!(node_arch("arm"), Some("arm".to_string()));
    assert_eq!(node_arch("riscv64"), None);
    assert_eq!(ios_arch("x64"), Some("x86_64".to_string()));
    assert_eq!(ios_arch("arm"), None);
    assert_eq!(android_abi("arm"), Some("armeabi-v7a".to_string()));
    assert_eq!(android_abi("ia32"), Some("x86".to_string()));
    assert_eq!(android_abi("mips"), None);
    assert_eq!(host("ios", "arm64", true), "ios-arm64-simulator");
    assert_eq!(host("darwin", "x64", false), "darwin-x64");
    assert!(bundles_resources("win32"));
    assert!(!bundles_resources("android"));
}

#[test]
fn entry_is_first_existing_candidate() {
    assert_eq!(ENTRY_CANDIDATE_COUNT, 6);
    assert_eq!(entry_candidate(0), "bare/app.js");
    assert_eq!(entry_candidate(5), "src-bare/src/app.js");
    assert_eq!(select_entry(&[false, false, true, true, false, false]), Some(2));
    assert_eq!(select_entry(&[false; 6]), None);
}

#[test]
fn config_escapes_backslashes() {
    assert_eq!(
        tauri_config("C:\\res\\bare"),
        "{ \"bundle\": { \"resources\": { \"C:\\\\res\\\\bare\": \"\" } } }"
    );
    assert_eq!(tauri_config("/opt/res"), "{ \"bundle\": { \"resources\": { \"/opt/res\": \"\" } } }");
}

#[test]
fn linked_library_names() {
    assert_eq!(framework_name("BareKit.framework"), Some("BareKit".to_string()));
    assert_eq!(framework_name("Headers"), None);
    assert_eq!(shared_library_name("libbare-kit.so"), Some("bare-kit".to_string()));
    assert_eq!(shared_library_name("libc++_shared.so"), Some("c++_shared".to_string()));
    assert_eq!(shared_library_name("bare.so"), None);
    assert_eq!(shared_library_name("libbare.a"), None);
    assert!(str_eq("ab", "ab") && !str_eq("ab", "abc"));
    assert!(starts_with("library", "lib") && ends_with("x.so", ".so"));
}

use tauri_plugin_bare_kit::autolink::{link_plan, BuildPath, LinkPlan, LinkStep, OutputDir};

#[test]
fn link_plans_per_platform() {
    assert_eq!(link_plan("linux", "riscv64", false, ""), Err("riscv64".to_string()));
    assert_eq!(link_plan("freebsd", "x86_64", false, ""), Ok(None));
    assert_eq!(
        link_plan("macos", "aarch64", false, ""),
        Ok(Some(LinkPlan {
            host: "darwin-arm64".to_string(),
            output: OutputDir::Resources,
            steps: vec![
                LinkStep::LinkArg("-Wl,-rpath,@executable_path/".to_string()),
                LinkStep::SearchFrameworks(BuildPath::Resources(String::new())),
                LinkStep::LinkFrameworksIn(BuildPath::Resources(String::new())),
            ],
        }))
    );
    assert_eq!(
        link_plan("ios", "x86_64", true, "debug"),
        Ok(Some(LinkPlan {
            host: "ios-x64-simulator".to_string(),
            output: OutputDir::Crate("gen/apple/Externals/x86_64/debug".to_string()),
            steps: vec![
                LinkStep::CopyDir {
                    from: BuildPath::Resources("BareKit.framework".to_string()),
                    to: BuildPath::Output("BareKit.framework".to_string()),
                },
                LinkStep::SearchFrameworks(BuildPath::Output(String::new())),
                LinkStep::LinkFramework("BareKit".to_string()),
            ],
        }))
    );
    assert_eq!(link_plan("ios", "arm", false, "debug"), Err("arm".to_string()));
    assert_eq!(
        link_plan("android", "aarch64", false, ""),
        Ok(Some(LinkPlan {
            host: "android-arm64".to_string(),
            output: OutputDir::Crate("gen/android/app/src/main/jniLibs".to_string()),
            steps: vec![
                LinkStep::CopyFile {
                    from: BuildPath::Resources("libbare-kit.so".to_string()),
                    to: BuildPath::Output("arm64-v8a/libbare-kit.so".to_string()),
                },
                LinkStep::CopyFile {
                    from: BuildPath::Resources("libc++_shared.so".to_string()),
                    to: BuildPath::Output("arm64-v8a/libc++_shared.so".to_string()),
                },
                LinkStep::SearchNative(BuildPath::Output("arm64-v8a".to_string())),
                LinkStep::LinkLib("bare-kit".to_string()),
            ],
        }))
    );
    let linux = link_plan("linux", "x86_64", false, "").unwrap().unwrap();
    assert_eq!(linux.host, "linux-x64");
    assert_eq!(linux.output, OutputDir::BuildOut);
    assert_eq!(linux.steps.len(), 4);
    let windows = link_plan("windows", "x86_64", false, "").unwrap().unwrap();
    assert_eq!(windows.host, "win32-x64");
    assert_eq!(windows.steps, vec![LinkStep::DefFile(BuildPath::Resources("bare-kit.def".to_string()))]);
}
