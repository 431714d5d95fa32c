use starship::context::{Config, Context, DirectoryLister, ModuleConfig, RuntimeState};
use starship::json::get_pinned_sdk_version;
use starship::modules::dotnet::{
    check_directory_for_global_json, estimate_dotnet_version, get_dotnet_file_type,
    get_latest_sdk_from_cli, get_local_dotnet_files, get_pinned_sdk_version_from_file,
    get_version_from_cli, module, plan, Action, CommandOutput, DotNetFile, FileType, Resolver,
    Stage,
};
use starship::probe::DirEntry;

struct Fixed(Vec<DirEntry>);

impl DirectoryLister for Fixed {
    fn list_dir(&mut self, _dir: &str) -> Option<Vec<DirEntry>> {
        Some(self.0.clone())
    }
}

fn file(name: &str) -> DirEntry {
    DirEntry { name: name.to_string(), is_dir: false }
}

fn runtime() -> RuntimeState {
    RuntimeState { status_code: None, duration_ms: None, keymap: None, jobs: None }
}

fn context_with(dir: &str, names: &[&str], config: Config) -> Context {
    let mut ctx = Context::new(dir.to_string(), runtime(), config);
    let mut lister = Fixed(names.iter().map(|n| file(n)).collect());
    if ctx.needs_listing() {
        let entries = lister.list_dir(ctx.current_dir());
        ctx.record_listing(entries);
    }
    ctx
}

fn dotnet_file(name: &str, file_type: FileType) -> DotNetFile {
    DotNetFile { name: name.to_string(), file_type }
}

#[test]
fn should_parse_version_from_global_json() {
    let json_text = r#"
        {
            "sdk": {
                "version": "1.2.3"
            }
        }
    "#;

    let version = get_pinned_sdk_version(json_text).unwrap();
    assert_eq!("1.2.3", version.0);
}

#[test]
fn should_ignore_empty_global_json() {
    let json_text = "{}";

    let version = get_pinned_sdk_version(json_text);
    assert!(version.is_none());
}

#[test]
fn pinned_version_needs_object_and_string() {
    assert!(get_pinned_sdk_version(r#"{"sdk": "1.2.3"}"#).is_none());
    assert!(get_pinned_sdk_version(r#"{"sdk": {"version": 3}}"#).is_none());
    assert!(get_pinned_sdk_version(r#"[1, 2]"#).is_none());
    assert!(get_pinned_sdk_version("not json").is_none());
    let v = get_pinned_sdk_version(r#"{"other": 1, "sdk": {"rollForward": "x", "version": "2.1.300"}}"#);
    assert_eq!(v.unwrap().0, "2.1.300");
}

#[test]
fn file_types_by_name_and_extension() {
    assert_eq!(get_dotnet_file_type("global.json"), Some(FileType::GlobalJson));
    assert_eq!(get_dotnet_file_type("Global.JSON"), Some(FileType::GlobalJson));
    assert_eq!(get_dotnet_file_type("project.json"), Some(FileType::ProjectJson));
    assert_eq!(get_dotnet_file_type("app.sln"), Some(FileType::SolutionFile));
    assert_eq!(get_dotnet_file_type("App.CsProj"), Some(FileType::ProjectFile));
    assert_eq!(get_dotnet_file_type("lib.fsproj"), Some(FileType::ProjectFile));
    assert_eq!(get_dotnet_file_type("old.xproj"), Some(FileType::ProjectFile));
    assert_eq!(get_dotnet_file_type("main.rs"), None);
    assert_eq!(get_dotnet_file_type(".sln"), None);
    assert_eq!(get_dotnet_file_type("package.json"), None);
}

#[test]
fn local_files_keep_listing_order() {
    let ctx = context_with("/w", &["README.md", "b.csproj", "a.sln", "x.txt"], Config::empty());
    let files = get_local_dotnet_files(&ctx);
    assert_eq!(files.len(), 2);
    assert_eq!(files[0].name, "b.csproj");
    assert_eq!(files[0].file_type, FileType::ProjectFile);
    assert_eq!(files[1].name, "a.sln");
    assert_eq!(files[1].file_type, FileType::SolutionFile);
}

#[test]
fn global_json_in_directory_is_the_only_candidate() {
    let files = vec![
        dotnet_file("a.csproj", FileType::ProjectFile),
        dotnet_file("global.json", FileType::GlobalJson),
    ];
    let c = estimate_dotnet_version(&files, "/home/u/proj", Some("/home/u")).unwrap();
    assert_eq!(c, vec!["/home/u/proj/global.json".to_string()]);
}

#[test]
fn solution_file_asks_the_toolchain() {
    let files = vec![
        dotnet_file("a.csproj", FileType::ProjectFile),
        dotnet_file("a.sln", FileType::SolutionFile),
    ];
    let c = estimate_dotnet_version(&files, "/home/u/proj", Some("/home/u")).unwrap();
    assert!(c.is_empty());
}

#[test]
fn project_file_searches_parent_and_repository_root() {
    let files = vec![dotnet_file("a.csproj", FileType::ProjectFile)];
    let c = estimate_dotnet_version(&files, "/r/src/app", Some("/r")).unwrap();
    assert_eq!(c, vec!["/r/src/global.json".to_string(), "/r/global.json".to_string()]);
    let same = estimate_dotnet_version(&files, "/r/app", Some("/r")).unwrap();
    assert_eq!(same, vec!["/r/global.json".to_string()]);
    let slash = estimate_dotnet_version(&files, "/r/src/app/", None).unwrap();
    assert_eq!(slash, vec!["/r/src/global.json".to_string()]);
    let no_repo = estimate_dotnet_version(&files, "/r/app", None).unwrap();
    assert_eq!(no_repo, vec!["/r/global.json".to_string()]);
    assert!(estimate_dotnet_version(&Vec::new(), "/r", None).is_none());
}

#[test]
fn pin_file_path_of_directory() {
    assert_eq!(check_directory_for_global_json("/a/b"), "/a/b/global.json");
    assert_eq!(check_directory_for_global_json("/"), "/global.json");
}

#[test]
fn pin_file_content() {
    let v = get_pinned_sdk_version_from_file(Some(r#"{"sdk":{"version":"1.2.3"}}"#.to_string()));
    assert_eq!(v.unwrap().0, "1.2.3");
    assert!(get_pinned_sdk_version_from_file(None).is_none());
}

#[test]
fn version_output_is_trimmed_and_prefixed() {
    assert_eq!(get_version_from_cli("2.2.101\n").unwrap().0, "v2.2.101");
    assert!(get_version_from_cli("").is_none());
    assert!(get_version_from_cli(" \n").is_none());
}

#[test]
fn latest_sdk_is_last_listed() {
    let out = "2.1.300 [/usr/share/dotnet/sdk]\n2.2.101 [/usr/share/dotnet/sdk]\n\n";
    assert_eq!(get_latest_sdk_from_cli(out).unwrap().0, "v2.2.101");
    assert!(get_latest_sdk_from_cli("").is_none());
    assert!(get_latest_sdk_from_cli("no brackets here").is_none());
    assert!(get_latest_sdk_from_cli("[x]").is_none());
    assert!(get_latest_sdk_from_cli("1 [x]").is_none());
    assert_eq!(get_latest_sdk_from_cli("12 [x]").unwrap().0, "v12");
    assert_eq!(get_latest_sdk_from_cli("é [x]").unwrap().0, "vé");
    assert!(get_latest_sdk_from_cli("1.2é[x]").is_none());
}

#[test]
fn pin_file_takes_precedence_over_toolchain() {
    let mut r = Resolver::with_candidates(vec!["/w/global.json".to_string()]);
    match r.next_action() {
        Action::ReadFile(p) => assert_eq!(p, "/w/global.json"),
        other => panic!("unexpected {:?}", other),
    }
    r.on_pin_file(Some(r#"{"sdk":{"version":"1.2.3"}}"#.to_string()));
    assert_eq!(r.stage, Stage::Done);
    assert!(matches!(r.next_action(), Action::Finished));
    assert_eq!(r.into_version().unwrap().0, "1.2.3");
}

#[test]
fn empty_pin_file_falls_through_to_toolchain() {
    let mut r = Resolver::with_candidates(vec!["/w/global.json".to_string()]);
    r.on_pin_file(Some("{}".to_string()));
    assert_eq!(r.stage, Stage::ListSdks);
    assert!(matches!(r.next_action(), Action::ListSdks));
    r.on_list_sdks(Some(CommandOutput {
        success: true,
        stdout: "3.0.100 [/usr/share/dotnet/sdk]\n".to_string(),
    }));
    assert_eq!(r.stage, Stage::Done);
    assert_eq!(r.into_version().unwrap().0, "v3.0.100");
}

#[test]
fn candidates_are_read_in_order() {
    let mut r = Resolver::with_candidates(vec!["/a/global.json".to_string(), "/b/global.json".to_string()]);
    r.on_pin_file(None);
    assert_eq!(r.stage, Stage::Pin(1));
    r.on_pin_file(Some(r#"{"sdk":{"version":"5.0.1"}}"#.to_string()));
    assert_eq!(r.into_version().unwrap().0, "5.0.1");
}

#[test]
fn older_toolchain_falls_back_to_version_query() {
    let mut r = Resolver::with_candidates(Vec::new());
    assert_eq!(r.stage, Stage::ListSdks);
    r.on_list_sdks(Some(CommandOutput { success: false, stdout: String::new() }));
    assert_eq!(r.stage, Stage::QueryVersion);
    assert!(matches!(r.next_action(), Action::QueryVersion));
    r.on_version(Some(" 2.0.0 \n".to_string()));
    assert_eq!(r.stage, Stage::Done);
    assert_eq!(r.into_version().unwrap().0, "v2.0.0");
}

#[test]
fn missing_toolchain_gives_no_version() {
    let mut r = Resolver::with_candidates(Vec::new());
    r.on_list_sdks(None);
    assert_eq!(r.stage, Stage::Done);
    assert!(r.into_version().is_none());
    let mut q = Resolver::version_query_only();
    q.on_version(None);
    assert!(q.into_version().is_none());
    let mut blank = Resolver::version_query_only();
    blank.on_version(Some("\n".to_string()));
    assert_eq!(blank.stage, Stage::Done);
    assert!(blank.into_version().is_none());
}

#[test]
fn no_marker_no_plan_and_no_module() {
    let ctx = context_with("/w", &["main.go", "README.md"], Config::empty());
    assert!(plan(&ctx).is_none());
    assert!(module(&ctx, Some(starship::json::Version("v1".to_string()))).is_none());
}

#[test]
fn heuristic_off_queries_version_only() {
    let config = Config {
        modules: vec![ModuleConfig {
            name: "dotnet".to_string(),
            disabled: false,
            style: None,
            suffix: None,
            flags: vec![("heuristic".to_string(), false)],
        }],
        order: None,
    };
    let ctx = context_with("/w", &["global.json"], config);
    let r = plan(&ctx).unwrap();
    assert_eq!(r.stage, Stage::QueryVersion);
    assert!(r.candidates.is_empty());
    let ctx2 = context_with("/w", &["global.json"], Config::empty());
    let r2 = plan(&ctx2).unwrap();
    assert_eq!(r2.candidates, vec!["/w/global.json".to_string()]);
}

#[test]
fn module_has_symbol_and_version_segments() {
    let ctx = context_with("/w", &["app.csproj"], Config::empty());
    let m = module(&ctx, Some(starship::json::Version("v2.2.101".to_string()))).unwrap();
    assert_eq!(m.segments.len(), 2);
    assert_eq!(m.segments[0].name, "symbol");
    assert_eq!(m.segments[0].value, "•NET ");
    assert_eq!(m.segments[1].name, "version");
    assert!(m.segments[1].value.starts_with('v'));
    assert_eq!(
        m.to_string(),
        "\x1b[1;34m•NET \x1b[0m\x1b[1;34mv2.2.101\x1b[0m "
    );
    assert!(module(&ctx, None).is_none());
}
