use ace::container::{Container, Image, Namespaces, Preparation, Step};
use ace::supervisor::{classify, ChildStatus, ExecError, Termination};

fn position(plan: &[Step], path: &str) -> Option<usize> {
    plan.iter().position(|s| match s {
        Step::WriteFile { path: p, .. } => p == path,
        _ => false,
    })
}

fn written(plan: &[Step], path: &str) -> Vec<u8> {
    plan.iter()
        .find_map(|s| match s {
            Step::WriteFile { path: p, contents } if p == path => Some(contents.clone()),
            _ => None,
        })
        .unwrap()
}

#[test]
fn test_init_container() {
    let image_name = "library/alpine:3.8";
    let command = "/bin/bash".to_string();
    let container = Container::new(image_name, command.clone(), None);
    assert_eq!(container.command, command);
}

#[test]
fn fresh_container_has_empty_path_and_named_image() {
    let c = Container::new("test", "echo hello".to_string(), None);
    assert_eq!(c.path, "");
    assert_eq!(c.name, "test");
    assert_eq!(c.image.name, "test");
    assert_eq!(c.id.len(), 16);
}

#[test]
fn supplied_path_gives_id_from_file_stem() {
    let c = Container::new("test", "sh".to_string(), Some("/var/lib/ace/abc123.img"));
    assert_eq!(c.id, "abc123");
    assert_eq!(c.path, "/var/lib/ace/abc123.img");
    let d = Container::new("test", "sh".to_string(), Some("abc123"));
    assert_eq!(d.id, "abc123");
    let e = Container::new("test", "sh".to_string(), Some("/a/b/c/d/abc123.tar"));
    assert_eq!(e.id, "abc123");
}

#[test]
fn two_fresh_containers_get_different_ids() {
    let mut seen: Vec<String> = Vec::new();
    for _ in 0..50 {
        let c = Container::new("test", "true".to_string(), None);
        assert_eq!(c.id.chars().count(), 16);
        assert!(c.id.chars().all(|ch| ch.is_ascii_alphanumeric()));
        assert!(!seen.contains(&c.id));
        seen.push(c.id);
    }
}

#[test]
fn full_path_is_under_containers_root() {
    let image = Image::new("alpine");
    assert_eq!(image.get_full_path("abc123"), "/var/lib/ace/containers/abc123");
}

#[test]
fn uid_map_written_for_host_uid_1000() {
    let mut c = Container::new("test", "true".to_string(), None);
    c.host_uid = 1000;
    c.host_gid = 1001;
    let plan = c.prepare();
    assert_eq!(written(&plan, "/proc/self/uid_map"), b"0 1000 1".to_vec());
    assert_eq!(written(&plan, "/proc/self/gid_map"), b"0 1001 1".to_vec());
    assert_eq!(written(&plan, "/proc/self/setgroups"), b"deny".to_vec());
}

#[test]
fn setgroups_denied_before_gid_map() {
    for path in [None, Some("/tmp/rootfs")] {
        let c = Container::new("test", "true".to_string(), path);
        let plan = c.prepare();
        let deny = position(&plan, "/proc/self/setgroups").unwrap();
        let gid = position(&plan, "/proc/self/gid_map").unwrap();
        let uid = position(&plan, "/proc/self/uid_map").unwrap();
        assert!(deny < gid);
        assert!(uid < gid);
    }
}

#[test]
fn supplied_path_skips_materialisation() {
    let c = Container::new("test", "true".to_string(), Some("/var/lib/ace/abc123"));
    let plan = c.prepare();
    assert!(!plan.iter().any(|s| matches!(s, Step::PullImage { .. } | Step::CopyFile { .. })));
    assert_eq!(plan.len(), 7);
    assert!(matches!(plan[0], Step::Unshare { .. }));
}

#[test]
fn fresh_container_plan_in_order() {
    let c = Container::new("test", "echo hello".to_string(), None);
    let root = format!("/var/lib/ace/containers/{}", c.id);
    let plan = c.prepare();
    assert_eq!(plan.len(), 10);
    match &plan[0] {
        Step::PullImage { image, id } => {
            assert_eq!(image, "test");
            assert_eq!(id, &c.id);
        }
        other => panic!("unexpected first step {:?}", other),
    }
    match &plan[1] {
        Step::CopyFile { from, to } => {
            assert_eq!(from, "/etc/hosts");
            assert_eq!(to, &format!("{}/etc/hosts", root));
        }
        other => panic!("unexpected step {:?}", other),
    }
    match &plan[2] {
        Step::CopyFile { from, to } => {
            assert_eq!(from, "/etc/resolv.conf");
            assert_eq!(to, &format!("{}/etc/resolv.conf", root));
        }
        other => panic!("unexpected step {:?}", other),
    }
    match &plan[3] {
        Step::Unshare { namespaces } => assert_eq!(
            *namespaces,
            Namespaces { pid: true, uts: true, mount: true, user: true }
        ),
        other => panic!("unexpected step {:?}", other),
    }
    let unshares = plan.iter().filter(|s| matches!(s, Step::Unshare { .. })).count();
    assert_eq!(unshares, 1);
    match &plan[7] {
        Step::ChangeRoot { path } => assert_eq!(path, &root),
        other => panic!("unexpected step {:?}", other),
    }
    match &plan[8] {
        Step::ChangeDir { path } => assert_eq!(path, "/"),
        other => panic!("unexpected step {:?}", other),
    }
    match &plan[9] {
        Step::SetHostname { name } => assert_eq!(name, "test"),
        other => panic!("unexpected step {:?}", other),
    }
}

#[test]
fn exec_passes_command_as_one_argument() {
    let c = Container::new("test", "ls -la".to_string(), None);
    let e = c.exec_spec().unwrap();
    assert_eq!(e.program, "/bin/sh");
    assert_eq!(e.argv, vec!["/bin/sh".to_string(), "-c".to_string(), "ls -la".to_string()]);
    assert_eq!(
        e.env,
        vec![
            "LC_ALL=C".to_string(),
            "PATH=/bin/:/usr/bin/:/usr/local/bin:/sbin:/usr/sbin".to_string()
        ]
    );
}

#[test]
fn exec_refuses_nul_in_command() {
    let c = Container::new("test", "echo a\0b".to_string(), None);
    assert_eq!(c.exec_spec().err(), Some(ExecError::NulInCommand));
}

#[test]
fn wait_status_classified() {
    assert_eq!(classify(ChildStatus::Exited { code: 0 }), Termination::Exited { code: 0 });
    assert_eq!(classify(ChildStatus::Exited { code: 3 }), Termination::Exited { code: 3 });
    assert_eq!(classify(ChildStatus::Signaled { signal: 9 }), Termination::Signaled { signal: 9 });
    assert_eq!(classify(ChildStatus::Stopped { signal: 19 }), Termination::Unexpected);
    assert_eq!(classify(ChildStatus::Continued), Termination::Unexpected);
    assert_eq!(classify(ChildStatus::Traced), Termination::Unexpected);
    assert_eq!(classify(ChildStatus::StillAlive), Termination::Unexpected);
}

#[test]
fn preparation_yields_jailed_only_when_all_steps_done() {
    let c = Container::new("test", "true".to_string(), Some("/srv/rootfs"));
    let id = c.id.clone();
    let mut prep = Preparation::new(c);
    let mut seen = 0;
    while prep.next_step().is_some() {
        prep = match prep.finish() {
            Ok(_) => panic!("finished with steps left"),
            Err(p) => p,
        };
        prep.step_done();
        seen += 1;
    }
    assert_eq!(seen, 7);
    let jailed = prep.finish().unwrap();
    assert_eq!(jailed.container().id, id);
    assert_eq!(jailed.container().id, "rootfs");
}

#[test]
fn failed_step_ends_preparation() {
    let c = Container::new("test", "true".to_string(), Some("/srv/rootfs"));
    let mut prep = Preparation::new(c);
    prep.step_done();
    let aborted = prep.step_failed();
    assert_eq!(aborted.index, 1);
    match aborted.step {
        Step::WriteFile { path, contents } => {
            assert_eq!(path, "/proc/self/uid_map");
            assert!(contents.starts_with(b"0 "));
        }
        other => panic!("unexpected step {:?}", other),
    }
}
