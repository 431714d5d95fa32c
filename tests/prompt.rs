use starship::context::{repository_probe, Config, Context, DirectoryLister, ModuleConfig, RuntimeState};
use starship::module::{Module, Segment};
use starship::modules::nodejs::{self, has_js_files, needs_version, segment};
use starship::modules::golang::{self, format_go_version};
use starship::modules::{directory, handle, is_known, line_break, needs, uses_repository, Need};
use starship::path::{find_upward, join, parent, upward_step, UpwardStep};
use starship::probe::{extension, DirEntry, FileProbe};
use starship::prompt::{default_order, modules_to_evaluate, render_prompt};
use starship::style::{Color, Style};
use starship::text::{eq_ignore_ascii_case, last_nonblank_line, trim};

struct Fixed(Vec<DirEntry>);

impl DirectoryLister for Fixed {
    fn list_dir(&mut self, _dir: &str) -> Option<Vec<DirEntry>> {
        Some(self.0.clone())
    }
}

fn entry(name: &str, is_dir: bool) -> DirEntry {
    DirEntry { name: name.to_string(), is_dir }
}

fn runtime() -> RuntimeState {
    RuntimeState { status_code: None, duration_ms: None, keymap: None, jobs: None }
}

fn context_with(entries: Vec<DirEntry>, config: Config) -> Context {
    let mut ctx = Context::new("/w".to_string(), runtime(), config);
    if ctx.needs_listing() {
        let entries = Fixed(entries).list_dir(ctx.current_dir());
        ctx.record_listing(entries);
    }
    ctx
}

fn disabled(name: &str) -> ModuleConfig {
    ModuleConfig { name: name.to_string(), disabled: true, style: None, suffix: None, flags: Vec::new() }
}

#[test]
fn extensions_follow_the_last_dot() {
    assert_eq!(extension("a.tar.gz"), Some("gz"));
    assert_eq!(extension("a."), Some(""));
    assert_eq!(extension(".bashrc"), None);
    assert_eq!(extension("Makefile"), None);
    assert_eq!(extension(".."), None);
}

#[test]
fn text_helpers() {
    assert!(eq_ignore_ascii_case("CsProj", "csproj"));
    assert!(!eq_ignore_ascii_case("csproj", "csproj2"));
    assert_eq!(trim("\t a b \r\n"), "a b");
    assert_eq!(trim("   "), "");
    assert_eq!(last_nonblank_line("a\n b \n  \n"), Some("b"));
    assert_eq!(last_nonblank_line(" \n\n"), None);
}

#[test]
fn probe_matches_extension_name_or_folder() {
    let probe = FileProbe {
        extensions: vec!["go".to_string()],
        file_names: vec!["go.mod".to_string()],
        folders: vec!["Godeps".to_string()],
    };
    assert!(probe.matches(&vec![entry("main.GO", false)]));
    assert!(probe.matches(&vec![entry("README", false), entry("go.mod", false)]));
    assert!(probe.matches(&vec![entry("Godeps", true)]));
    assert!(!probe.matches(&vec![entry("Godeps", false)]));
    assert!(!probe.matches(&vec![entry("GO.MOD", false), entry("src", true)]));
    assert!(!probe.matches(&Vec::new()));
    let empty = FileProbe { extensions: Vec::new(), file_names: Vec::new(), folders: Vec::new() };
    assert!(!empty.matches(&vec![entry("main.go", false), entry("x", true)]));
}

#[test]
fn paths() {
    assert_eq!(parent("/a/b"), Some("/a"));
    assert_eq!(parent("/a"), Some("/"));
    assert_eq!(parent("/"), None);
    assert_eq!(parent("a"), None);
    assert_eq!(parent("/r/app/"), Some("/r"));
    assert_eq!(parent("/r//"), Some("/"));
    assert_eq!(parent("//"), None);
    assert_eq!(join("/a", "b"), "/a/b");
    assert_eq!(join("/a/", "b"), "/a/b");
}

#[test]
fn upward_search_steps() {
    let probe = repository_probe();
    let git = vec![entry(".git", true)];
    let plain = vec![entry("src", true)];
    assert!(matches!(upward_step("/r/a/b", &plain, &probe, None), UpwardStep::Next(ref d) if d == "/r/a"));
    assert!(matches!(upward_step("/r", &git, &probe, None), UpwardStep::Found(ref d) if d == "/r"));
    assert!(matches!(upward_step("/", &plain, &probe, None), UpwardStep::Exhausted));
    assert!(matches!(upward_step("/home/u", &plain, &probe, Some("/home/u")), UpwardStep::Exhausted));
}

#[test]
fn repository_root_found_from_nested_directory() {
    let probe = repository_probe();
    let listing = |d: &str| if d == "/r" { vec![entry(".git", true)] } else { vec![entry("x", false)] };
    let mut current = "/r/a/b/c/d".to_string();
    let found = loop {
        match upward_step(&current, &listing(&current), &probe, None) {
            UpwardStep::Found(d) => break Some(d),
            UpwardStep::Next(d) => current = d,
            UpwardStep::Exhausted => break None,
        }
    };
    assert_eq!(found, Some("/r".to_string()));
    let mut current = "/x/y".to_string();
    let none = loop {
        match upward_step(&current, &vec![entry("x", false)], &probe, None) {
            UpwardStep::Found(d) => break Some(d),
            UpwardStep::Next(d) => current = d,
            UpwardStep::Exhausted => break None,
        }
    };
    assert_eq!(none, None);
}

#[test]
fn js_markers() {
    assert!(has_js_files(&entry("index.js", false)));
    assert!(has_js_files(&entry("index.JS", false)));
    assert!(!has_js_files(&entry("index.jsx", false)));
    assert!(!has_js_files(&entry("lib.js", true)));
    assert!(has_js_files(&entry("node_modules", true)));
    assert!(!has_js_files(&entry("node_modules", false)));
    assert!(has_js_files(&entry("package.json", false)));
    assert!(!has_js_files(&entry("package.json", true)));
}

#[test]
fn node_segment() {
    let ctx = context_with(vec![entry("package.json", false)], Config::empty());
    assert!(needs_version(&ctx));
    let seg = segment(&ctx, Some("v10.15.0\n".to_string())).unwrap();
    assert_eq!(seg.name, "node");
    assert_eq!(seg.value, "⬢ v10.15.0");
    assert_eq!(seg.to_string(), "\x1b[32m⬢ v10.15.0\x1b[0m");
    assert!(segment(&ctx, None).is_none());
    assert!(segment(&ctx, Some(" \n".to_string())).is_none());
    assert!(nodejs::module(&ctx, Some(String::new())).is_none());
    let m = nodejs::module(&ctx, Some("v12.4.0\n".to_string())).unwrap();
    assert_eq!(m.segments.len(), 2);
    assert_eq!(m.segments[0].name, "symbol");
    assert_eq!(m.segments[0].value, "⬢ ");
    assert_eq!(m.segments[1].name, "version");
    assert_eq!(m.segments[1].value, "v12.4.0");
    let other = context_with(vec![entry("main.rs", false)], Config::empty());
    assert!(!needs_version(&other));
    assert!(segment(&other, Some("v10".to_string())).is_none());
}

#[test]
fn painting_styles() {
    let mut m = Module::new("m", Style::plain(), "");
    m.new_segment("a", "x");
    assert_eq!(m.to_string(), "x");
    m.set_style(Style::fg(Color::Red));
    assert_eq!(m.to_string(), "\x1b[31mx\x1b[0m");
    m.set_style(Style::plain().bold());
    assert_eq!(m.to_string(), "\x1b[1mx\x1b[0m");
    let mut s = Segment::new("s");
    s.set_value("y".to_string());
    s.set_style(Style::fg(Color::Cyan).bold());
    assert_eq!(s.to_string(), "\x1b[1;36my\x1b[0m");
    assert!(Module::new("e", Style::plain(), " ").is_empty());
}

#[test]
fn dispatch_by_name() {
    let ctx = context_with(vec![entry("a.sln", false), entry("index.js", false)], Config::empty());
    assert!(matches!(needs("dotnet", &ctx), Some(Need::DotnetVersion(_))));
    assert!(matches!(needs("nodejs", &ctx), Some(Need::NodeVersion)));
    assert!(matches!(needs("line_break", &ctx), Some(Need::Nothing)));
    assert!(needs("battery", &ctx).is_none());
    assert!(handle("battery", &ctx, None).is_none());
    assert_eq!(handle("line_break", &ctx, None).unwrap().to_string(), "\n");
    assert_eq!(
        handle("nodejs", &ctx, Some("v8.0.0".to_string())).unwrap().to_string(),
        "\x1b[32m⬢ \x1b[0m\x1b[32mv8.0.0\x1b[0m "
    );
    assert_eq!(
        handle("dotnet", &ctx, Some("1.2.3".to_string())).unwrap().to_string(),
        "\x1b[1;34m•NET \x1b[0m\x1b[1;34m1.2.3\x1b[0m "
    );
    let bare = context_with(vec![entry("notes.txt", false)], Config::empty());
    assert!(needs("dotnet", &bare).is_none());
    assert!(needs("nodejs", &bare).is_none());
    assert!(handle("dotnet", &bare, Some("1".to_string())).is_none());
    assert!(handle("nodejs", &bare, Some("1".to_string())).is_none());
}

#[test]
fn configured_style_overrides_default() {
    let config = Config {
        modules: vec![ModuleConfig {
            name: "dotnet".to_string(),
            disabled: false,
            style: Some(Style::fg(Color::Red)),
            suffix: Some("".to_string()),
            flags: Vec::new(),
        }],
        order: None,
    };
    let ctx = context_with(vec![entry("a.sln", false)], config);
    assert_eq!(
        handle("dotnet", &ctx, Some("v1".to_string())).unwrap().to_string(),
        "\x1b[31m•NET \x1b[0m\x1b[31mv1\x1b[0m"
    );
}

#[test]
fn disabled_module_is_not_evaluated() {
    let config = Config { modules: vec![disabled("nodejs")], order: None };
    let ctx = context_with(vec![entry("index.js", false)], config);
    let names = modules_to_evaluate(&ctx);
    assert_eq!(
        names,
        vec!["directory".to_string(), "dotnet".to_string(), "golang".to_string(), "line_break".to_string()]
    );
    let default = context_with(Vec::new(), Config::empty());
    assert_eq!(modules_to_evaluate(&default), default_order());
}

#[test]
fn configured_order_is_kept() {
    let config = Config {
        modules: Vec::new(),
        order: Some(vec!["line_break".to_string(), "nodejs".to_string(), "line_break".to_string()]),
    };
    let ctx = context_with(vec![entry("index.js", false)], config);
    let names = modules_to_evaluate(&ctx);
    assert_eq!(names, vec!["line_break".to_string(), "nodejs".to_string(), "line_break".to_string()]);
    let rendered: Vec<Option<Module>> = names
        .iter()
        .map(|n| handle(n, &ctx, Some("v9".to_string())))
        .collect();
    assert_eq!(render_prompt(&rendered), "\n\x1b[32m⬢ \x1b[0m\x1b[32mv9\x1b[0m \n");
}

#[test]
fn all_disabled_renders_empty_prompt() {
    let config = Config {
        modules: vec![
            disabled("directory"),
            disabled("dotnet"),
            disabled("golang"),
            disabled("nodejs"),
            disabled("line_break"),
        ],
        order: None,
    };
    let ctx = context_with(vec![entry("a.sln", false)], config);
    assert!(modules_to_evaluate(&ctx).is_empty());
    assert_eq!(render_prompt(&Vec::new()), "");
    assert_eq!(render_prompt(&vec![None, None]), "");
}

#[test]
fn rendering_twice_is_identical() {
    let ctx = context_with(vec![entry("a.sln", false)], Config::empty());
    let render = || {
        let mods: Vec<Option<Module>> = modules_to_evaluate(&ctx)
            .iter()
            .map(|n| handle(n, &ctx, Some("v2.0.0".to_string())))
            .collect();
        render_prompt(&mods)
    };
    let first = render();
    assert_eq!(first, render());
    assert_eq!(
        first,
        "\x1b[1;36m/w\x1b[0m \x1b[1;34m•NET \x1b[0m\x1b[1;34mv2.0.0\x1b[0m \n"
    );
    assert_eq!(line_break().to_string(), "\n");
}

#[test]
fn go_markers_and_version() {
    assert!(golang::needs_version(&context_with(vec![entry("go.mod", false)], Config::empty())));
    assert!(golang::needs_version(&context_with(vec![entry("main.go", false)], Config::empty())));
    assert!(golang::needs_version(&context_with(vec![entry("Godeps", true)], Config::empty())));
    assert!(!golang::needs_version(&context_with(vec![entry("main.rs", false)], Config::empty())));
    assert_eq!(format_go_version("go version go1.12.1 linux/amd64\n"), Some("v1.12.1".to_string()));
    assert_eq!(format_go_version("go version go1.13"), Some("v1.13".to_string()));
    assert_eq!(format_go_version("go version go linux/amd64"), None);
    assert_eq!(format_go_version("gccgo 9"), None);
    let ctx = context_with(vec![entry("go.mod", false)], Config::empty());
    assert!(golang::module(&ctx, Some("garbage".to_string())).is_none());
    assert!(golang::module(&ctx, None).is_none());
}

#[test]
fn go_project_renders_two_lines() {
    let config = Config {
        modules: Vec::new(),
        order: Some(vec!["directory".to_string(), "line_break".to_string(), "golang".to_string()]),
    };
    let ctx = context_with(vec![entry("go.mod", false)], config);
    let rendered: Vec<Option<Module>> = modules_to_evaluate(&ctx)
        .iter()
        .map(|n| match needs(n, &ctx) {
            Some(Need::GoVersion) => handle(n, &ctx, Some("go version go1.12.1 linux/amd64\n".to_string())),
            Some(_) => handle(n, &ctx, None),
            None => None,
        })
        .collect();
    let out = render_prompt(&rendered);
    assert_eq!(out, "\x1b[1;36m/w\x1b[0m \n\x1b[1;36m🐹 \x1b[0m\x1b[1;36mv1.12.1\x1b[0m ");
    let lines: Vec<&str> = out.lines().collect();
    assert_eq!(lines.len(), 2);
    assert!(lines[0].contains("/w"));
    assert!(lines[1].contains("v1.12.1"));
}

#[test]
fn empty_directory_with_all_disabled_is_empty() {
    let config = Config {
        modules: vec![disabled("directory"), disabled("golang"), disabled("line_break")],
        order: Some(vec!["directory".to_string(), "golang".to_string(), "line_break".to_string()]),
    };
    let ctx = context_with(Vec::new(), config);
    let names = modules_to_evaluate(&ctx);
    assert!(names.is_empty());
    let rendered: Vec<Option<Module>> = names.iter().map(|n| handle(n, &ctx, None)).collect();
    assert_eq!(render_prompt(&rendered), "");
}

#[test]
fn directory_module_shows_path() {
    let ctx = context_with(Vec::new(), Config::empty());
    assert_eq!(directory::module(&ctx).to_string(), "\x1b[1;36m/w\x1b[0m ");
    assert!(matches!(needs("directory", &ctx), Some(Need::Nothing)));
}

struct Tree;

impl DirectoryLister for Tree {
    fn list_dir(&mut self, dir: &str) -> Option<Vec<DirEntry>> {
        match dir {
            "/r" => Some(vec![entry(".git", true), entry("a", true)]),
            "/" => Some(vec![entry("r", true), entry("x", true)]),
            "/r/a/b" => None,
            _ => Some(vec![entry("file", false)]),
        }
    }
}

fn locate(dir: &str) -> Context {
    let mut ctx = Context::new(dir.to_string(), runtime(), Config::empty());
    let listings: Vec<Vec<DirEntry>> = ctx
        .repository_search_dirs()
        .iter()
        .map(|d| Tree.list_dir(d).unwrap_or_default())
        .collect();
    ctx.locate_repository(listings);
    ctx
}

#[test]
fn repository_located_from_any_depth() {
    assert_eq!(
        locate("/r/a/b/c/d").repository_search_dirs(),
        vec!["/r/a/b/c/d", "/r/a/b/c", "/r/a/b", "/r/a", "/r", "/"]
    );
    assert_eq!(locate("/r/a/b/c/d").repo_root(), Some("/r"));
    assert_eq!(locate("/r/a").repo_root(), Some("/r"));
    assert_eq!(locate("/r").repo_root(), Some("/r"));
    let outside = locate("/x/y");
    assert!(!outside.needs_repository());
    assert_eq!(outside.repo_root(), None);
    let mut partial = Context::new("/r/a/b".to_string(), runtime(), Config::empty());
    partial.locate_repository(vec![vec![entry("file", false)], Vec::new(), vec![entry(".git", true)]]);
    assert_eq!(partial.repo_root(), Some("/r"));
    let mut again = locate("/r/a");
    again.locate_repository(vec![Vec::new(), Vec::new(), Vec::new()]);
    assert_eq!(again.repo_root(), Some("/r"));
}

#[test]
fn upward_search_stops_at_boundary() {
    let probe = repository_probe();
    assert_eq!(find_upward(&mut Tree, "/r/a/b", &probe, None), Some("/r".to_string()));
    assert_eq!(find_upward(&mut Tree, "/r/a/b", &probe, Some("/r/a")), None);
    assert_eq!(find_upward(&mut Tree, "/r/a/b", &probe, Some("/r")), Some("/r".to_string()));
}

#[test]
fn module_names_known_to_the_library() {
    assert!(is_known("golang"));
    assert!(is_known("line_break"));
    assert!(!is_known("battery"));
    assert!(uses_repository("dotnet"));
    assert!(!uses_repository("nodejs"));
}
