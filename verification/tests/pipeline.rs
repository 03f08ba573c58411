use yabs::buildfile::{BuildFile, Binary, Library};
use yabs::error::BuildError;
use yabs::logger::{LogLevel, Logger};
use yabs::project::{ModMap, ProjectDesc};
use yabs::scheduler::{Scheduler, SchedulerAction};
use yabs::staleness::{build_object_queue, TargetState};
use yabs::target::Target;

fn project_with_sources(sources: &[&str]) -> ProjectDesc {
    let mut map = ModMap::new();
    for (i, s) in sources.iter().enumerate() {
        map.insert(Target::new(String::from(*s)), i as u64);
    }
    ProjectDesc {
        compiler: None,
        compiler_flags: Vec::new(),
        include_dirs: Vec::new(),
        lflags: Vec::new(),
        lib_dir: Vec::new(),
        libs: Vec::new(),
        ar: None,
        arflags: None,
        before_script: None,
        after_script: None,
        file_mod_map: map,
    }
}

fn binary(name: &str, sources: &[&str]) -> Binary {
    Binary {
        name: String::from(name),
        sources: sources.iter().map(|s| String::from(*s)).collect(),
    }
}

#[test]
fn compile_command_uses_defaults_and_quotes_paths() {
    let project = project_with_sources(&[]);
    let t = Target::new(String::from("src/a.c"));
    let cmd = project.compile_command(&t);
    assert_eq!(cmd, "gcc -c   -o \"src/a.o\" \"src/a.c\"");
}

#[test]
fn compile_command_prefixes_flags_and_includes() {
    let mut project = project_with_sources(&[]);
    project.compiler = Some(String::from("clang"));
    project.compiler_flags = vec![String::from("Wall"), String::from("O2")];
    project.include_dirs = vec![String::from("inc")];
    let t = Target::new(String::from("a.c"));
    let cmd = project.compile_command(&t);
    assert_eq!(cmd, "clang -c -Wall -O2 -Iinc -o \"a.o\" \"a.c\"");
}

#[test]
fn shared_objects_link_into_both_binaries() {
    // Two binaries sharing one source: each link line carries its own
    // object and the shared object, never the other binary's object.
    let project = project_with_sources(&["a.c", "b.c", "shared.c"]);
    let bf = BuildFile {
        project,
        binaries: vec![
            binary("A", &["a.c", "shared.c"]),
            binary("B", &["b.c", "shared.c"]),
        ],
        libraries: Vec::new(),
    };
    let list_a = bf.object_list_for_binary(0);
    let list_b = bf.object_list_for_binary(1);
    assert_eq!(list_a, "a.o shared.o");
    assert_eq!(list_b, "b.o shared.o");
    let link_a = bf.link_binary_command(0);
    assert_eq!(link_a, "gcc  -o A a.o shared.o  ");
    assert!(!link_a.contains("b.o"));
}

#[test]
fn single_binary_links_full_object_list() {
    let project = project_with_sources(&["a.c", "util.c"]);
    let bf = BuildFile {
        project,
        binaries: vec![binary("A", &["a.c"])],
        libraries: Vec::new(),
    };
    // With exactly one declared binary nothing is filtered, even
    // objects not attributed to it.
    assert_eq!(bf.object_list_for_binary(0), "a.o util.o");
}

#[test]
fn static_library_build_end_to_end() {
    // One library, static requested, dynamic not, sources x.c and y.c,
    // no existing objects, two workers.
    let project = project_with_sources(&["x.c", "y.c"]);
    let states: Vec<TargetState> = project.file_mod_map.states(&vec![false, false]);
    let queue = build_object_queue(&states, None);
    let sources: Vec<&str> = queue.iter().map(|t| t.source.as_str()).collect();
    assert_eq!(sources, vec!["x.c", "y.c"]);

    let mut s = Scheduler::new(queue, 2);
    // Both compile jobs spawn before anything is waited on.
    assert!(matches!(s.next(), SchedulerAction::Spawn(_)));
    s.spawned();
    assert!(matches!(s.next(), SchedulerAction::Spawn(_)));
    s.spawned();
    assert_eq!(s.in_flight, 2);
    assert!(matches!(s.next(), SchedulerAction::Wait));
    s.job_done(true);
    assert!(matches!(s.next(), SchedulerAction::Wait));
    s.job_done(true);
    assert!(matches!(s.next(), SchedulerAction::Done));

    let bf = BuildFile {
        project,
        binaries: Vec::new(),
        libraries: vec![Library {
            name: String::from("mylib"),
            wants_static: true,
            wants_dynamic: false,
        }],
    };
    // The archiver is invoked once; no dynamic-artifact request is issued.
    let commands = bf.library_commands(&bf.libraries[0]);
    assert_eq!(commands.len(), 1);
    assert_eq!(commands[0], "ar rcs libmylib.a x.o y.o");
}

#[test]
fn dynamic_library_command_uses_shared_flag() {
    let mut project = project_with_sources(&["x.c"]);
    project.libs = vec![String::from("m")];
    let bf = BuildFile {
        project,
        binaries: Vec::new(),
        libraries: vec![Library {
            name: String::from("mylib"),
            wants_static: false,
            wants_dynamic: true,
        }],
    };
    let commands = bf.library_commands(&bf.libraries[0]);
    assert_eq!(commands.len(), 1);
    assert_eq!(commands[0], "gcc -shared -o libmylib.so x.o -lm");
}

#[test]
fn requesting_unknown_output_reports_target_not_found() {
    let bf = BuildFile {
        project: project_with_sources(&[]),
        binaries: vec![binary("A", &[])],
        libraries: Vec::new(),
    };
    match bf.find_binary_index("missing") {
        Err(BuildError::TargetNotFound { kind, name }) => {
            assert_eq!(kind, "binary");
            assert_eq!(name, "missing");
        },
        _ => panic!("expected a target-not-found error"),
    }
    match bf.find_library_index("nolib") {
        Err(BuildError::TargetNotFound { kind, name }) => {
            assert_eq!(kind, "library");
            assert_eq!(name, "nolib");
        },
        _ => panic!("expected a target-not-found error"),
    }
    assert_eq!(bf.find_binary_index("A"), Ok(0));
}

#[test]
fn logger_renders_error_and_info_lines() {
    let logger = Logger::init().unwrap();
    assert!(logger.enabled(LogLevel::Error));
    assert!(logger.enabled(LogLevel::Info));
    assert!(!logger.enabled(LogLevel::Debug));
    // The error label is painted bold red by ansi_term.
    assert_eq!(
        logger.render(LogLevel::Error, "spawn failed"),
        Some(String::from("\u{1b}[1;31merror\u{1b}[0m: spawn failed"))
    );
    assert_eq!(logger.render(LogLevel::Info, "cc -c a.c"), Some(String::from("cc -c a.c")));
    assert_eq!(logger.render(LogLevel::Warn, "noisy"), None);
    assert_eq!(logger.render(LogLevel::Trace, "hidden"), None);
}
