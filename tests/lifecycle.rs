use fuoco::lifecycle::{outputs_block, Action, Deployment, Event, Lifecycle, Phase, Report, Termination};
use fuoco::provider::Provider;
use fuoco::request::{run, template_dir, template_path, Command, ConfigError, Request};
use fuoco::rules::InboundRule;
use fuoco::workspace::workspace_dir;

fn deploy_command() -> Command {
    Command::Deploy {
        debug: false,
        instance_type: None,
        provider: Provider::AWS,
        region: None,
        script_path: None,
        inbound_rules: None,
        ssh_public_key_path: None,
    }
}

fn entries(d: &Deployment) -> Vec<(String, String)> {
    d.vars.entries().clone()
}

/// Drives a controller through the events, counting teardowns issued.
fn drive(l: &mut Lifecycle, events: Vec<Event>, destroys: &mut u32) -> Vec<Action> {
    let mut actions = Vec::new();
    for e in events {
        let a = l.step(e);
        if matches!(a, Action::Destroy(_)) {
            *destroys += 1;
        }
        actions.push(a);
    }
    actions
}

#[test]
fn template_locations() {
    assert_eq!(template_path("/srv/p", &Provider::AWS), "/srv/p/templates/aws/main.tf");
    assert_eq!(template_path("/srv/p/", &Provider::GCP), "/srv/p/templates/gcp/main.tf");
    assert_eq!(template_dir("/srv/p", &Provider::Hetzner), "/srv/p/templates/hetzner");
}

#[test]
fn run_needs_project_dir() {
    let r = run(deploy_command(), None, "/tmp");
    assert_eq!(r.err(), Some(ConfigError::ProjectDirUnset));
    assert_eq!(ConfigError::ProjectDirUnset.message(), "CARGO_MANIFEST_DIR is not set");
}

#[test]
fn deploy_resolves_defaults() {
    let s = run(deploy_command(), Some("/srv/p".to_string()), "/tmp").unwrap();
    assert_eq!(s.lifecycle.phase(), Phase::Idle);
    let d = s.lifecycle.deployment();
    assert_eq!(d.template_path, "/srv/p/templates/aws/main.tf");
    assert_eq!(d.workspace_dir, workspace_dir("/tmp", "/srv/p/templates/aws"));
    assert!(!d.verbose);
    let v = entries(d);
    assert_eq!(v.len(), 5);
    assert_eq!(v[0], ("instance_type".to_string(), "t3.micro".to_string()));
    assert_eq!(v[1].0, "region");
    assert!(Provider::AWS.regions().contains(&v[1].1.as_str()));
    assert_eq!(v[2], ("script_path".to_string(), String::new()));
    assert_eq!(
        v[3],
        ("inbound_rules".to_string(), "[{\"protocol\":\"tcp\",\"port_number\":22}]".to_string())
    );
    assert_eq!(v[4], ("ssh_public_key_path".to_string(), "none".to_string()));
}

#[test]
fn deploy_keeps_given_values() {
    let c = Command::Deploy {
        debug: true,
        instance_type: Some("e2-small".to_string()),
        provider: Provider::GCP,
        region: Some("europe-west1".to_string()),
        script_path: Some("/home/u/start.sh".to_string()),
        inbound_rules: Some(vec![InboundRule { protocol: "tcp".to_string(), port_number: 443 }]),
        ssh_public_key_path: Some("/home/u/.ssh/id.pub".to_string()),
    };
    let s = run(c, Some("/p".to_string()), "/tmp").unwrap();
    let d = s.lifecycle.deployment();
    assert!(d.verbose);
    assert_eq!(d.vars.get("instance_type").unwrap(), "e2-small");
    assert_eq!(d.vars.get("region").unwrap(), "europe-west1");
    assert_eq!(d.vars.get("script_path").unwrap(), "/home/u/start.sh");
    assert_eq!(d.vars.get("inbound_rules").unwrap(), "[{\"protocol\":\"tcp\",\"port_number\":443}]");
    assert_eq!(d.vars.get("ssh_public_key_path").unwrap(), "/home/u/.ssh/id.pub");
    match s.request {
        Request::Deploy(q) => assert_eq!(q.template_path, "/p/templates/gcp/main.tf"),
        Request::Undeploy(_) => panic!("expected a deployment"),
    }
}

#[test]
fn outputs_block_lines() {
    assert_eq!(outputs_block(&Vec::new()), "");
    let b = outputs_block(&vec![("public_ip".to_string(), "203.0.113.5".to_string())]);
    assert_eq!(
        b,
        "*************************** Outputs **************************\n\
         public_ip: 203.0.113.5\n\
         **************************************************************\n"
    );
}

#[test]
fn apply_then_interrupt_destroys_with_same_vars() {
    let mut s = run(deploy_command(), Some("/srv/p".to_string()), "/tmp").unwrap();
    let l = &mut s.lifecycle;
    let mut destroys = 0;
    let a = drive(l, vec![Event::Start], &mut destroys);
    match &a[0] {
        Action::ClearWorkspace(w) => assert_eq!(w, &workspace_dir("/tmp", "/srv/p/templates/aws")),
        other => panic!("unexpected {:?}", other),
    }
    let a = l.step(Event::WorkspaceCleared);
    let applied = match a {
        Action::Apply(d) => entries(&d),
        other => panic!("unexpected {:?}", other),
    };
    let outputs = vec![("public_ip".to_string(), "203.0.113.5".to_string())];
    match l.step(Event::Applied(outputs)) {
        Action::Announce(t) => assert!(t.contains("public_ip: 203.0.113.5\n")),
        other => panic!("unexpected {:?}", other),
    }
    assert_eq!(l.phase(), Phase::Deployed);
    let a = l.step(Event::Terminated(Termination::Interrupt));
    match a {
        Action::Destroy(d) => assert_eq!(entries(&d), applied),
        other => panic!("unexpected {:?}", other),
    }
    destroys += 1;
    assert!(matches!(
        l.step(Event::Destroyed),
        Action::Exit { code: 0, report: Report::Quiet }
    ));
    assert_eq!(l.phase(), Phase::Done);
    drive(l, vec![Event::Terminated(Termination::Fault)], &mut destroys);
    assert_eq!(destroys, 1);
}

#[test]
fn apply_failure_never_destroys() {
    let mut s = run(deploy_command(), Some("/srv/p".to_string()), "/tmp").unwrap();
    let mut destroys = 0;
    let a = drive(
        &mut s.lifecycle,
        vec![
            Event::Start,
            Event::WorkspaceCleared,
            Event::ApplyFailed("`terraform apply` failed with exit code 1".to_string()),
            Event::Terminated(Termination::Interrupt),
            Event::Terminated(Termination::Fault),
        ],
        &mut destroys,
    );
    assert_eq!(destroys, 0);
    match &a[2] {
        Action::Exit { code: 1, report: Report::Error(m) } => {
            assert_eq!(m, "`terraform apply` failed with exit code 1")
        }
        other => panic!("unexpected {:?}", other),
    }
    assert!(matches!(a[3], Action::Ignore));
    assert_eq!(s.lifecycle.phase(), Phase::Failed);
}

#[test]
fn workspace_failure_stops_before_apply() {
    let mut s = run(deploy_command(), Some("/srv/p".to_string()), "/tmp").unwrap();
    let mut destroys = 0;
    let a = drive(
        &mut s.lifecycle,
        vec![Event::Start, Event::WorkspaceFailed("denied".to_string()), Event::WorkspaceCleared],
        &mut destroys,
    );
    assert!(matches!(&a[1], Action::Exit { code: 1, report: Report::Error(m) } if m == "denied"));
    assert!(matches!(a[2], Action::Ignore));
    assert_eq!(destroys, 0);
}

#[test]
fn explicit_undeploy_destroys_given_entries() {
    let c = Command::Undeploy {
        debug: false,
        instance_type: Some("t3.micro".to_string()),
        provider: Provider::AWS,
        region: "us-east-1".to_string(),
    };
    let mut s = run(c, Some("/srv/p".to_string()), "/tmp").unwrap();
    assert_eq!(s.lifecycle.phase(), Phase::Deployed);
    let l = &mut s.lifecycle;
    let mut destroys = 0;
    let a = drive(l, vec![Event::Terminated(Termination::Explicit)], &mut destroys);
    match &a[0] {
        Action::Destroy(d) => {
            assert_eq!(
                entries(d),
                vec![
                    ("instance_type".to_string(), "t3.micro".to_string()),
                    ("region".to_string(), "us-east-1".to_string()),
                ]
            );
            assert_eq!(d.template_path, "/srv/p/templates/aws/main.tf");
        }
        other => panic!("unexpected {:?}", other),
    }
    let a = drive(
        l,
        vec![
            Event::DestroyFailed("`terraform destroy` failed".to_string()),
            Event::Terminated(Termination::Interrupt),
        ],
        &mut destroys,
    );
    assert!(matches!(&a[0], Action::Exit { code: 1, report: Report::Error(m) } if m == "`terraform destroy` failed"));
    assert!(matches!(a[1], Action::Ignore));
    assert_eq!(destroys, 1);
    assert_eq!(l.phase(), Phase::TeardownFailed);
}

#[test]
fn undeploy_uses_default_instance_type() {
    let c = Command::Undeploy {
        debug: true,
        instance_type: None,
        provider: Provider::Hetzner,
        region: "fsn1".to_string(),
    };
    let s = run(c, Some("/p".to_string()), "/tmp").unwrap();
    let d = s.lifecycle.deployment();
    assert_eq!(
        entries(d),
        vec![
            ("instance_type".to_string(), "cx11".to_string()),
            ("region".to_string(), "fsn1".to_string()),
        ]
    );
    assert!(d.verbose);
}

#[test]
fn every_termination_path_destroys_once() {
    for cause in [
        Termination::Explicit,
        Termination::Interrupt,
        Termination::Terminate,
        Termination::Fault,
    ] {
        let mut s = run(deploy_command(), Some("/p".to_string()), "/tmp").unwrap();
        let mut destroys = 0;
        drive(
            &mut s.lifecycle,
            vec![
                Event::Start,
                Event::WorkspaceCleared,
                Event::Applied(Vec::new()),
                Event::Terminated(cause),
                Event::Terminated(Termination::Fault),
                Event::Terminated(Termination::Terminate),
                Event::Destroyed,
                Event::Terminated(Termination::Interrupt),
            ],
            &mut destroys,
        );
        assert_eq!(destroys, 1);
    }
}

#[test]
fn teardown_failure_exit_codes() {
    let cases = [
        (Termination::Interrupt, 0),
        (Termination::Terminate, 0),
        (Termination::Fault, 1),
    ];
    for (cause, code) in cases {
        let mut s = run(deploy_command(), Some("/p".to_string()), "/tmp").unwrap();
        let mut destroys = 0;
        let a = drive(
            &mut s.lifecycle,
            vec![
                Event::Start,
                Event::WorkspaceCleared,
                Event::Applied(Vec::new()),
                Event::Terminated(cause),
                Event::DestroyFailed("gone wrong".to_string()),
            ],
            &mut destroys,
        );
        match &a[4] {
            Action::Exit { code: c, report: Report::TeardownFailed(m) } => {
                assert_eq!(*c, code);
                assert_eq!(m, "gone wrong");
            }
            other => panic!("unexpected {:?}", other),
        }
        assert_eq!(destroys, 1);
    }
}

#[test]
fn fault_after_teardown_exits_failed() {
    let mut s = run(deploy_command(), Some("/p".to_string()), "/tmp").unwrap();
    let mut destroys = 0;
    let a = drive(
        &mut s.lifecycle,
        vec![
            Event::Start,
            Event::WorkspaceCleared,
            Event::Applied(Vec::new()),
            Event::Terminated(Termination::Fault),
            Event::Destroyed,
        ],
        &mut destroys,
    );
    assert!(matches!(a[2], Action::Announce(ref t) if t.is_empty()));
    assert!(matches!(a[4], Action::Exit { code: 1, report: Report::Quiet }));
}

#[test]
fn termination_before_deploy_exits_without_teardown() {
    let mut s = run(deploy_command(), Some("/p".to_string()), "/tmp").unwrap();
    let mut destroys = 0;
    let a = drive(
        &mut s.lifecycle,
        vec![Event::Start, Event::Terminated(Termination::Interrupt), Event::WorkspaceCleared],
        &mut destroys,
    );
    assert!(matches!(a[1], Action::Exit { code: 1, report: Report::Quiet }));
    assert!(matches!(a[2], Action::Ignore));
    assert_eq!(destroys, 0);
}

#[test]
fn for_deploy_and_undeploy_start_states() {
    let s = run(deploy_command(), Some("/p".to_string()), "/tmp").unwrap();
    let d = s.lifecycle.deployment().duplicate();
    let l = Lifecycle::for_deploy(d);
    assert_eq!(l.phase(), Phase::Idle);
    let l = Lifecycle::for_undeploy(s.lifecycle.deployment().duplicate());
    assert_eq!(l.phase(), Phase::Deployed);
}
