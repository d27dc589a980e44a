use go_updater::{EscalationPrograms, RootAction, RootError, RootState};

fn programs() -> EscalationPrograms {
    EscalationPrograms::from_overrides(None, None, None)
}

/// Runs the machine; `outcome` answers each program started. Returns the result
/// and the programs started, in order.
fn run(
    is_root: bool,
    command: &str,
    outcome: impl Fn(&str, &[String]) -> Result<bool, String>,
) -> (Result<(), RootError<String>>, Vec<String>) {
    let (mut state, mut action) = RootState::start::<String>(is_root, programs(), command);
    let mut started = Vec::new();
    loop {
        match action {
            RootAction::Finish(r) => return (r, started),
            RootAction::Run { program, args } => {
                started.push(format!("{program} {}", args.join(" ")));
                let ran = outcome(&program, &args);
                assert!(state.is_running());
                let (s, a) = state.step(ran);
                state = s;
                action = a;
            }
        }
    }
}

#[test]
fn real_sys_run_root_success_and_fail_via_env() {
    let (r, started) = run(true, "true", |_, _| Ok(true));
    assert!(r.is_ok());
    assert_eq!(started, vec!["sh -c true"]);
    let (r, started) = run(true, "false", |_, _| Ok(false));
    assert!(r.unwrap_err().own_message().unwrap().contains("cmd gagal (root)"));
    assert_eq!(started, vec!["sh -c false"]);
}

#[test]
fn run_root_sudo_success() {
    let (r, started) = run(false, "echo ok", |p, _| Ok(p == "sudo"));
    assert!(r.is_ok());
    assert_eq!(started, vec!["sudo sh -c echo ok"]);
}

#[test]
fn run_root_pkexec_success_after_sudo_fail() {
    let (r, started) = run(false, "echo ok", |p, _| Ok(p == "pkexec"));
    assert!(r.is_ok());
    assert_eq!(started, vec!["sudo sh -c echo ok", "pkexec sh -c echo ok"]);
}

#[test]
fn run_root_su_success_after_sudo_and_pkexec_fail() {
    let (r, started) = run(false, "echo ok", |p, _| Ok(p == "su"));
    assert!(r.is_ok());
    assert_eq!(started, vec!["sudo sh -c echo ok", "pkexec sh -c echo ok", "su -c echo ok"]);
}

#[test]
fn run_root_all_fail_hits_final_err() {
    let (r, _) = run(false, "echo ok", |_, _| Ok(false));
    let err = r.unwrap_err();
    assert!(err.own_message().unwrap().contains("cmd gagal (su)"));
    assert!(matches!(err, RootError::SuCommandFailed));
}

#[test]
fn run_root_missing_sudo_then_pkexec_ok() {
    let (r, started) = run(false, "echo ok", |p, _| {
        if p == "sudo" { Err("No such file or directory".into()) } else { Ok(p == "pkexec") }
    });
    assert!(r.is_ok());
    assert_eq!(started.len(), 2);
}

#[test]
fn unstartable_su_reports_escalation_failure() {
    let (r, _) = run(false, "echo ok", |p, _| if p == "su" { Err("gone".into()) } else { Ok(false) });
    let err = r.unwrap_err();
    assert_eq!(err.own_message().as_deref(), Some("privilege escalation failed (sudo/pkexec/su)"));
    assert!(matches!(err, RootError::NoEscalation(ref e) if e == "gone"));
}

#[test]
fn overridden_programs_are_used() {
    let p = EscalationPrograms::from_overrides(Some("/opt/mysudo".into()), None, Some("/bin/mysu".into()));
    assert_eq!(p.sudo, "/opt/mysudo");
    assert_eq!(p.pkexec, "pkexec");
    assert_eq!(p.su, "/bin/mysu");
}
