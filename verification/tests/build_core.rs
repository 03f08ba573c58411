use yabs::buildfile::{clean_plan, BuildFile, Binary, Library};
use yabs::discovery::{parent_dir, Discovery, DiscoveryStep};
use yabs::error::BuildError;
use yabs::project::{ModMap, ProjectDesc};
use yabs::scheduler::{Scheduler, SchedulerAction};
use yabs::staleness::{build_object_queue, TargetState};
use yabs::target::{object_path_of, Target};

fn state(source: &str, mtime: u64, object_exists: bool) -> TargetState {
    TargetState { target: Target::new(String::from(source)), source_mtime: mtime, object_exists }
}

fn empty_project() -> ProjectDesc {
    ProjectDesc {
        compiler: None,
        compiler_flags: Vec::new(),
        include_dirs: Vec::new(),
        lflags: Vec::new(),
        lib_dir: Vec::new(),
        libs: Vec::new(),
        ar: None,
        arflags: None,
        before_script: None,
        after_script: None,
        file_mod_map: ModMap::new(),
    }
}

#[test]
fn object_path_replaces_extension() {
    assert_eq!(object_path_of("foo.c"), "foo.o");
    assert_eq!(object_path_of("dir/bar.cpp"), "dir/bar.o");
    assert_eq!(object_path_of("a.tar.gz"), "a.tar.o");
    assert_eq!(object_path_of("noext"), "noext.o");
}

#[test]
fn fresh_target_with_object_is_excluded() {
    // Source older than the output and object present: not queued.
    let states = vec![state("a.c", 5, true), state("b.c", 20, true)];
    let queue = build_object_queue(&states, Some(10));
    assert_eq!(queue.len(), 1);
    assert_eq!(queue[0].source, "b.c");
}

#[test]
fn missing_object_is_queued_regardless_of_mtimes() {
    let states = vec![state("a.c", 5, false), state("b.c", 5, true)];
    let queue = build_object_queue(&states, Some(10));
    assert_eq!(queue.len(), 1);
    assert_eq!(queue[0].source, "a.c");
}

#[test]
fn absent_output_queues_exactly_missing_objects() {
    let states = vec![
        state("a.c", 50, true),
        state("b.c", 1, false),
        state("c.c", 99, false),
    ];
    let queue = build_object_queue(&states, None);
    let sources: Vec<&str> = queue.iter().map(|t| t.source.as_str()).collect();
    assert_eq!(sources, vec!["b.c", "c.c"]);
}

#[test]
fn queue_has_no_duplicate_targets() {
    let states = vec![
        state("a.c", 5, false),
        state("b.c", 5, false),
        state("c.c", 5, false),
    ];
    let queue = build_object_queue(&states, None);
    for i in 0..queue.len() {
        for j in (i + 1)..queue.len() {
            assert_ne!(queue[i].source, queue[j].source);
        }
    }
    assert_eq!(queue.len(), 3);
}

#[test]
fn single_worker_runs_strictly_sequentially() {
    let queue = vec![Target::new(String::from("a.c")), Target::new(String::from("b.c"))];
    let mut s = Scheduler::new(queue, 1);
    // Spawn order is the reverse of the queue's order.
    match s.next() {
        SchedulerAction::Spawn(t) => assert_eq!(t.source, "b.c"),
        _ => panic!("expected a spawn"),
    }
    s.spawned();
    assert!(s.in_flight <= 1);
    // The single slot is full: the batch drains before the next spawn.
    assert!(matches!(s.next(), SchedulerAction::Wait));
    s.job_done(true);
    match s.next() {
        SchedulerAction::Spawn(t) => assert_eq!(t.source, "a.c"),
        _ => panic!("expected a spawn"),
    }
    s.spawned();
    assert!(s.in_flight <= 1);
    assert!(matches!(s.next(), SchedulerAction::Wait));
    s.job_done(true);
    assert!(matches!(s.next(), SchedulerAction::Done));
}

#[test]
fn wide_budget_spawns_all_before_any_wait() {
    let queue = vec![
        Target::new(String::from("a.c")),
        Target::new(String::from("b.c")),
        Target::new(String::from("c.c")),
    ];
    let mut s = Scheduler::new(queue, 3);
    for _ in 0..3 {
        assert!(matches!(s.next(), SchedulerAction::Spawn(_)));
        s.spawned();
    }
    assert_eq!(s.in_flight, 3);
    for _ in 0..3 {
        assert!(matches!(s.next(), SchedulerAction::Wait));
        s.job_done(true);
    }
    assert!(matches!(s.next(), SchedulerAction::Done));
}

#[test]
fn failure_halts_new_spawns_but_awaits_siblings() {
    let queue = vec![
        Target::new(String::from("a.c")),
        Target::new(String::from("b.c")),
        Target::new(String::from("c.c")),
    ];
    let mut s = Scheduler::new(queue, 2);
    assert!(matches!(s.next(), SchedulerAction::Spawn(_)));
    s.spawned();
    assert!(matches!(s.next(), SchedulerAction::Spawn(_)));
    s.spawned();
    // Batch is full while a target remains: drain the whole batch.
    assert!(matches!(s.next(), SchedulerAction::Wait));
    s.job_done(false);
    // The sibling still in flight is awaited, never abandoned.
    assert!(matches!(s.next(), SchedulerAction::Wait));
    s.job_done(true);
    // Nothing new is spawned after the failure; the run aborts.
    assert!(matches!(s.next(), SchedulerAction::Abort));
}

#[test]
fn empty_queue_degrades_to_link_only() {
    // Everything fresh: nothing queued, and the scheduler finishes at
    // once, leaving only the link/archive step over existing objects.
    let states = vec![state("a.c", 5, true), state("b.c", 6, true)];
    let queue = build_object_queue(&states, Some(10));
    assert!(queue.is_empty());
    let mut s = Scheduler::new(queue, 4);
    assert!(matches!(s.next(), SchedulerAction::Done));
}

#[test]
fn clean_with_nothing_present_removes_nothing() {
    let candidates = vec![
        String::from("a.o"),
        String::from("app"),
        String::from("libz.so"),
        String::from("libz.a"),
    ];
    let present = vec![false, false, false, false];
    let plan = clean_plan(&candidates, &present);
    assert!(plan.is_empty());
}

#[test]
fn clean_removes_only_present_files_then_is_idempotent() {
    let candidates = vec![String::from("a.o"), String::from("b.o"), String::from("app")];
    let plan = clean_plan(&candidates, &vec![true, false, true]);
    let removed: Vec<&str> = plan.iter().map(|s| s.as_str()).collect();
    assert_eq!(removed, vec!["a.o", "app"]);
    // After those removals nothing is left: the second pass is empty.
    let second = clean_plan(&candidates, &vec![false, false, false]);
    assert!(second.is_empty());
}

#[test]
fn clean_candidates_cover_objects_binaries_and_library_artifacts() {
    let mut project = empty_project();
    project.file_mod_map.insert(Target::new(String::from("a.c")), 1);
    let bf = BuildFile {
        project,
        binaries: vec![Binary { name: String::from("app1"), sources: vec![String::from("a.c")] }],
        libraries: vec![Library {
            name: String::from("foo"),
            wants_static: true,
            wants_dynamic: false,
        }],
    };
    let cands: Vec<String> = bf.clean_candidates();
    let expected: Vec<&str> = vec!["a.o", "app1", "libfoo.so", "libfoo.a"];
    let got: Vec<&str> = cands.iter().map(|s| s.as_str()).collect();
    assert_eq!(got, expected);
}

#[test]
fn discovery_resolves_in_parent_directory() {
    let mut d = Discovery::start(String::from("/x/y"));
    assert_eq!(d.candidate_file(), "/x/y/build.toml");
    // The starting directory lacks the description file.
    assert!(matches!(d.step(false), DiscoveryStep::Ascend));
    assert_eq!(d.candidate_file(), "/x/build.toml");
    // The parent has it: it becomes the resolved root.
    match d.step(true) {
        DiscoveryStep::Resolved(root) => assert_eq!(root, "/x"),
        _ => panic!("expected discovery to resolve"),
    }
}

#[test]
fn discovery_exhausting_root_fails_with_starting_directory() {
    let mut d = Discovery::start(String::from("/top"));
    assert!(matches!(d.step(false), DiscoveryStep::Ascend));
    assert_eq!(d.current, "/");
    match d.step(false) {
        DiscoveryStep::Failed(BuildError::NoBuildFile { start }) => assert_eq!(start, "/top"),
        _ => panic!("expected discovery to fail at the root"),
    }
}

#[test]
fn parent_dir_walks_toward_root() {
    assert_eq!(parent_dir("/a/b"), Some(String::from("/a")));
    assert_eq!(parent_dir("/a"), Some(String::from("/")));
    assert_eq!(parent_dir("/"), None);
    assert_eq!(parent_dir("relative"), None);
    assert_eq!(parent_dir("a/b"), Some(String::from("a")));
}

#[test]
fn mod_map_keeps_sources_unique() {
    let mut map = ModMap::new();
    map.insert(Target::new(String::from("a.c")), 1);
    map.insert(Target::new(String::from("b.c")), 2);
    map.insert(Target::new(String::from("a.c")), 9);
    assert_eq!(map.len(), 2);
    assert_eq!(map.entries[0].mtime, 9);
    assert_eq!(map.entries[1].mtime, 2);
    let states = map.states(&vec![false, true]);
    assert_eq!(states.len(), 2);
    assert!(!states[0].object_exists);
    assert!(states[1].object_exists);
}
