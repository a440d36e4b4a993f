use chatterbox_desktop::envfile::parse_env_file;
use chatterbox_desktop::python::{
    augment_path, child_environment, default_python, glob_candidate, python_search_plan,
    start_error_message, PythonSearch, PythonSource, SearchAction,
};
use chatterbox_desktop::text::{is_whitespace_char, str_trim};

fn pairs(v: &[(&str, &str)]) -> Vec<(String, String)> {
    v.iter().map(|(k, x)| (k.to_string(), x.to_string())).collect()
}

#[test]
fn env_reads_assignments_in_order() {
    let content = "DEEPSEEK_API_KEY=your-deepseek-key\nOPENAI_API_KEY=your-openai-key\n";
    let r = parse_env_file(content);
    assert_eq!(
        r,
        pairs(&[("DEEPSEEK_API_KEY", "your-deepseek-key"), ("OPENAI_API_KEY", "your-openai-key")])
    );
}

#[test]
fn env_skips_blank_comment_and_plain_lines() {
    let content = "\n   \n# A=1\n   # B=2\nNOEQUALS\nC=3";
    let r = parse_env_file(content);
    assert_eq!(r, pairs(&[("C", "3")]));
}

#[test]
fn env_trims_names_and_values() {
    let content = "  KEY  =  some value \t\r\n\u{3000}WIDE\u{a0}=\u{2003}v\u{2003}";
    let r = parse_env_file(content);
    assert_eq!(r, pairs(&[("KEY", "some value"), ("WIDE", "v")]));
}

#[test]
fn env_splits_at_first_equals() {
    let r = parse_env_file("URL=http://x/?a=b");
    assert_eq!(r, pairs(&[("URL", "http://x/?a=b")]));
    let r = parse_env_file("=value");
    assert_eq!(r, pairs(&[("", "value")]));
    let r = parse_env_file("EMPTY=");
    assert_eq!(r, pairs(&[("EMPTY", "")]));
}

#[test]
fn env_later_line_overrides() {
    let r = parse_env_file("A=1\nB=2\nA=3");
    assert_eq!(r, pairs(&[("A", "3"), ("B", "2")]));
}

#[test]
fn env_file_values_reach_the_child() {
    let vars = parse_env_file("OPENAI_API_KEY=from-file\nPATH=/from/file");
    let env = child_environment(vars, "/usr/bin".to_string());
    let mut seen = std::collections::HashMap::new();
    for (k, v) in env {
        seen.insert(k, v);
    }
    assert_eq!(seen["OPENAI_API_KEY"], "from-file");
    assert_eq!(seen["PATH"], "/usr/bin");
    assert_eq!(seen["PYTHONIOENCODING"], "utf-8");
}

#[test]
fn env_empty_file() {
    assert!(parse_env_file("").is_empty());
}

#[test]
fn whitespace_matches_std() {
    for u in 0u32..=0x10FFFF {
        if let Some(c) = char::from_u32(u) {
            assert_eq!(is_whitespace_char(c), c.is_whitespace(), "char {:#x}", u);
        }
    }
}

#[test]
fn trim_matches_std() {
    for s in ["", "  ", " a ", "\u{3000}x y\u{85}", "\r\nline\r\n", "中文 ", "a"] {
        assert_eq!(str_trim(s), s.trim());
    }
}

fn view(plan: &[PythonSource]) -> Vec<String> {
    plan.iter()
        .map(|s| match s {
            PythonSource::Path(p) => format!("path {}", p),
            PythonSource::Glob { dir, rest } => format!("glob {} * {}", dir, rest),
            PythonSource::Which(c) => format!("which {}", c),
        })
        .collect()
}

#[test]
fn python_plan_with_override() {
    let plan = python_search_plan(Some("/opt/py/bin/python3".to_string()), "/home/luna");
    assert_eq!(
        view(&plan),
        vec![
            "path /opt/py/bin/python3",
            "path /home/luna/.pyenv/shims/python3",
            "glob /home/luna/.pyenv/versions * /bin/python3",
            "which python3",
            "which python",
            "path /opt/homebrew/bin/python3",
            "path /usr/local/bin/python3",
            "path /usr/bin/python3",
            "path /usr/bin/python",
            "path python3",
            "path python",
        ]
    );
}

#[test]
fn python_plan_without_override() {
    let plan = python_search_plan(None, "/home/u");
    let v = view(&plan);
    assert_eq!(v.len(), 10);
    assert_eq!(v[0], "path /home/u/.pyenv/shims/python3");
    assert_eq!(v[1], "glob /home/u/.pyenv/versions * /bin/python3");
    assert_eq!(glob_candidate("/home/u/.pyenv/versions/3.12.1", "/bin/python3"), "/home/u/.pyenv/versions/3.12.1/bin/python3");
    assert_eq!(default_python(), "python3");
}

/// A machine to search on: which paths run, what each directory lists,
/// which files exist, and what `which` prints.
struct World {
    runs: Vec<&'static str>,
    dirs: Vec<(&'static str, Vec<&'static str>)>,
    files: Vec<&'static str>,
    which: Vec<(&'static str, &'static str)>,
}

fn search(world: &World, override_path: Option<&str>, home: &str) -> (String, Vec<String>) {
    let mut s = PythonSearch::new(override_path.map(str::to_string), home);
    let mut probes = Vec::new();
    for _ in 0..1000 {
        match s.next_action() {
            SearchAction::Probe(p) => {
                probes.push(p.clone());
                s.probed(world.runs.contains(&p.as_str()));
            }
            SearchAction::List { dir, rest } => {
                let entries = world
                    .dirs
                    .iter()
                    .find(|(d, _)| *d == dir)
                    .map(|(_, es)| {
                        es.iter()
                            .map(|e| {
                                let c = glob_candidate(e, &rest);
                                (e.to_string(), world.files.contains(&c.as_str()))
                            })
                            .collect()
                    })
                    .unwrap_or_default();
                s.listed(entries);
            }
            SearchAction::Which(c) => {
                let out = world.which.iter().find(|(w, _)| *w == c).map(|(_, o)| o.to_string());
                s.which_answered(out);
            }
            SearchAction::Finish(p) => return (p, probes),
        }
    }
    panic!("search did not finish");
}

#[test]
fn search_finds_installed_pyenv_version() {
    let world = World {
        runs: vec!["/home/u/.pyenv/versions/3.11.4/bin/python3"],
        dirs: vec![("/home/u/.pyenv/versions", vec!["/home/u/.pyenv/versions/3.10.0", "/home/u/.pyenv/versions/3.11.4"])],
        files: vec!["/home/u/.pyenv/versions/3.11.4/bin/python3"],
        which: vec![],
    };
    let (found, probes) = search(&world, None, "/home/u");
    assert_eq!(found, "/home/u/.pyenv/versions/3.11.4/bin/python3");
    assert_eq!(probes, vec!["/home/u/.pyenv/shims/python3", "/home/u/.pyenv/versions/3.11.4/bin/python3"]);
}

#[test]
fn search_prefers_override_and_stops_at_first_that_runs() {
    let world = World {
        runs: vec!["/opt/py/python3", "/usr/bin/python3"],
        dirs: vec![],
        files: vec![],
        which: vec![],
    };
    let (found, probes) = search(&world, Some("/opt/py/python3"), "/home/u");
    assert_eq!(found, "/opt/py/python3");
    assert_eq!(probes, vec!["/opt/py/python3"]);
}

#[test]
fn search_uses_which_output_trimmed() {
    let world = World {
        runs: vec!["/usr/local/bin/python"],
        dirs: vec![],
        files: vec![],
        which: vec![("python", "/usr/local/bin/python\n")],
    };
    let (found, probes) = search(&world, None, "/home/u");
    assert_eq!(found, "/usr/local/bin/python");
    assert_eq!(probes, vec!["/home/u/.pyenv/shims/python3", "/usr/local/bin/python"]);
}

#[test]
fn search_falls_back_to_python3() {
    let world = World { runs: vec![], dirs: vec![], files: vec![], which: vec![] };
    let (found, probes) = search(&world, None, "/home/u");
    assert_eq!(found, "python3");
    assert_eq!(
        probes,
        vec![
            "/home/u/.pyenv/shims/python3",
            "/opt/homebrew/bin/python3",
            "/usr/local/bin/python3",
            "/usr/bin/python3",
            "/usr/bin/python",
            "python3",
            "python",
        ]
    );
}

#[test]
fn search_reports_outside_their_step_change_nothing() {
    let mut s = PythonSearch::new(None, "/home/u");
    s.listed(vec![("/x".to_string(), true)]);
    s.which_answered(Some("/y".to_string()));
    s.probed(true);
    match s.next_action() {
        SearchAction::Probe(p) => assert_eq!(p, "/home/u/.pyenv/shims/python3"),
        _ => panic!("expected the shim probe"),
    }
}

#[test]
fn augmented_path() {
    assert_eq!(
        augment_path("/home/luna", "/usr/bin:/custom"),
        "/home/luna/.pyenv/shims:/opt/homebrew/bin:/opt/homebrew/sbin:/usr/local/bin:/usr/bin:/bin:/usr/sbin:/sbin:/usr/bin:/custom"
    );
    assert_eq!(
        augment_path("", ""),
        "/.pyenv/shims:/opt/homebrew/bin:/opt/homebrew/sbin:/usr/local/bin:/usr/bin:/bin:/usr/sbin:/sbin:"
    );
}

#[test]
fn child_process_environment() {
    let file = vec![("OPENAI_API_KEY".to_string(), "k".to_string())];
    let env = child_environment(file, "/bin".to_string());
    assert_eq!(
        env,
        vec![
            ("OPENAI_API_KEY".to_string(), "k".to_string()),
            ("PYTHONUNBUFFERED".to_string(), "1".to_string()),
            ("PYTHONIOENCODING".to_string(), "utf-8".to_string()),
            ("PATH".to_string(), "/bin".to_string()),
        ]
    );
    assert_eq!(start_error_message("not found"), "Failed to start Python: not found");
}
