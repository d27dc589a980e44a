//! Running a shell command with root rights, as a state machine.
//!
//! A process that counts as root runs the command with `sh -c` itself.
//! Otherwise the command is tried through `sudo`, then `pkexec` (both as
//! `sh -c <command>`; a program that cannot be started counts as a failure),
//! and last through `su -c <command>`. [`RootState::start`] and
//! [`RootState::step`] decide; whoever runs the machine starts the programs
//! and reports whether each one succeeded.
use vstd::prelude::*;

verus! {

/// The programs used to gain root rights.
#[derive(Debug, Clone, PartialEq, Eq)]
pub struct EscalationPrograms {
    pub sudo: String,
    pub pkexec: String,
    pub su: String,
}

/// A configured program name, or the default where none is configured.
pub open spec fn configured_or(name: Option<String>, default: Seq<char>) -> Seq<char> {
    match name {
        Some(n) => n@,
        None => default,
    }
}

/// `configured`, or a new text holding `default`.
fn name_or(configured: Option<String>, default: &str) -> (r: String)
    ensures
        r@ == configured_or(configured, default@),
{
    match configured {
        Some(n) => n,
        None => String::from_str(default),
    }
}

impl EscalationPrograms {
    /// The programs named by `GO_UPDATER_SUDO`, `GO_UPDATER_PKEXEC` and
    /// `GO_UPDATER_SU` (given here), defaulting to `sudo`, `pkexec` and `su`.
    pub fn from_overrides(sudo: Option<String>, pkexec: Option<String>, su: Option<String>) -> (r: Self)
        ensures
            r.sudo@ == configured_or(sudo, "sudo"@),
            r.pkexec@ == configured_or(pkexec, "pkexec"@),
            r.su@ == configured_or(su, "su"@),
    {
        EscalationPrograms {
            sudo: name_or(sudo, "sudo"),
            pkexec: name_or(pkexec, "pkexec"),
            su: name_or(su, "su"),
        }
    }
}

/// Why a command could not be run with root rights.
#[derive(Debug)]
pub enum RootError<E> {
    /// As root, `sh` could not be started.
    Spawn(E),
    /// As root, the command ran and failed.
    RootCommandFailed,
    /// `sudo` and `pkexec` failed and `su` could not be started.
    NoEscalation(E),
    /// `sudo` and `pkexec` failed, and under `su` the command failed.
    SuCommandFailed,
}

impl<E> RootError<E> {
    /// The error text this library gives the error, or `None` where the error
    /// is an outside error that speaks for itself. For `NoEscalation` it is the
    /// context put in front of the outside error.
    pub fn own_message(&self) -> (r: Option<String>)
        ensures
            match self {
                RootError::Spawn(_) => r is None,
                RootError::RootCommandFailed => r matches Some(m) && m@ == "cmd gagal (root)"@,
                RootError::NoEscalation(_) => r matches Some(m) && m@
                    == "privilege escalation failed (sudo/pkexec/su)"@,
                RootError::SuCommandFailed => r matches Some(m) && m@ == "cmd gagal (su)"@,
            },
    {
        match self {
            RootError::Spawn(_) => None,
            RootError::RootCommandFailed => Some(String::from_str("cmd gagal (root)")),
            RootError::NoEscalation(_) => Some(String::from_str("privilege escalation failed (sudo/pkexec/su)")),
            RootError::SuCommandFailed => Some(String::from_str("cmd gagal (su)")),
        }
    }
}

/// The next program to start, or the end.
#[derive(Debug)]
pub enum RootAction<E> {
    /// Start `program` with `args` and report whether it succeeded.
    Run { program: String, args: Vec<String> },
    /// The run is over.
    Finish(Result<(), RootError<E>>),
}

/// Which attempt a run waits for.
#[derive(Debug)]
pub enum RootState {
    /// The command runs under `sh` directly.
    AsRoot,
    /// The command runs under `sudo`; `pkexec` and `su` remain.
    ViaSudo { pkexec: String, su: String, command: String },
    /// The command runs under `pkexec`; `su` remains.
    ViaPkexec { su: String, command: String },
    /// The command runs under `su`.
    ViaSu,
    /// The run is over.
    Done,
}

/// `args` is `sh -c <command>` without the `sh`: `-c`, `command`.
pub open spec fn is_dash_c(args: Seq<String>, command: Seq<char>) -> bool {
    args.len() == 2 && args[0]@ == "-c"@ && args[1]@ == command
}

/// `args` is `sh`, `-c`, `command`.
pub open spec fn is_sh_dash_c(args: Seq<String>, command: Seq<char>) -> bool {
    args.len() == 3 && args[0]@ == "sh"@ && args[1]@ == "-c"@ && args[2]@ == command
}

/// The action starts `program` as `program -c <command>`.
pub open spec fn runs_dash_c<E>(a: RootAction<E>, program: Seq<char>, command: Seq<char>) -> bool {
    a matches RootAction::Run { program: p, args } && p@ == program && is_dash_c(args@, command)
}

/// The action starts `program` as `program sh -c <command>`.
pub open spec fn runs_sh_dash_c<E>(a: RootAction<E>, program: Seq<char>, command: Seq<char>) -> bool {
    a matches RootAction::Run { program: p, args } && p@ == program && is_sh_dash_c(args@, command)
}

/// The first attempt: `sh -c <command>` as root, else through `sudo`.
pub open spec fn root_start_spec<E>(
    is_root: bool,
    programs: EscalationPrograms,
    command: Seq<char>,
    s: RootState,
    a: RootAction<E>,
) -> bool {
    if is_root {
        s == RootState::AsRoot && runs_dash_c(a, "sh"@, command)
    } else {
        &&& s matches RootState::ViaSudo { pkexec, su, command: c } && pkexec == programs.pkexec && su
            == programs.su && c@ == command
        &&& runs_sh_dash_c(a, programs.sudo@, command)
    }
}

/// One step: the attempt that state `s` waited for ended with `ran` (whether
/// the program succeeded, or why it could not be started).
pub open spec fn root_step_spec<E>(s: RootState, ran: Result<bool, E>, s2: RootState, a: RootAction<E>) -> bool {
    let ok = ran == Ok::<bool, E>(true);
    match s {
        RootState::AsRoot => s2 == RootState::Done && a == RootAction::<E>::Finish(
            match ran {
                Err(e) => Err(RootError::Spawn(e)),
                Ok(true) => Ok(()),
                Ok(false) => Err(RootError::RootCommandFailed),
            },
        ),
        RootState::ViaSudo { pkexec, su, command } => if ok {
            s2 == RootState::Done && a == RootAction::<E>::Finish(Ok(()))
        } else {
            s2 == RootState::ViaPkexec { su, command } && runs_sh_dash_c(a, pkexec@, command@)
        },
        RootState::ViaPkexec { su, command } => if ok {
            s2 == RootState::Done && a == RootAction::<E>::Finish(Ok(()))
        } else {
            s2 == RootState::ViaSu && runs_dash_c(a, su@, command@)
        },
        RootState::ViaSu => s2 == RootState::Done && a == RootAction::<E>::Finish(
            match ran {
                Err(e) => Err(RootError::NoEscalation(e)),
                Ok(true) => Ok(()),
                Ok(false) => Err(RootError::SuCommandFailed),
            },
        ),
        RootState::Done => false,
    }
}

/// `-c`, `command`.
fn dash_c(command: &str) -> (r: Vec<String>)
    ensures
        is_dash_c(r@, command@),
{
    vec![String::from_str("-c"), String::from_str(command)]
}

/// `sh`, `-c`, `command`.
fn sh_dash_c(command: &str) -> (r: Vec<String>)
    ensures
        is_sh_dash_c(r@, command@),
{
    vec![String::from_str("sh"), String::from_str("-c"), String::from_str(command)]
}

impl RootState {
    /// The first attempt to run `command` with root rights.
    pub fn start<E>(is_root: bool, programs: EscalationPrograms, command: &str) -> (r: (RootState, RootAction<E>))
        ensures
            root_start_spec(is_root, programs, command@, r.0, r.1),
    {
        if is_root {
            (RootState::AsRoot, RootAction::Run { program: String::from_str("sh"), args: dash_c(command) })
        } else {
            let EscalationPrograms { sudo, pkexec, su } = programs;
            (
                RootState::ViaSudo { pkexec, su, command: String::from_str(command) },
                RootAction::Run { program: sudo, args: sh_dash_c(command) },
            )
        }
    }

    /// Whether the run still waits for an attempt.
    pub fn is_running(&self) -> (r: bool)
        ensures
            r == !(*self == RootState::Done),
    {
        !matches!(self, RootState::Done)
    }

    /// Takes how the last attempt ended and decides the next one.
    pub fn step<E>(self, ran: Result<bool, E>) -> (r: (RootState, RootAction<E>))
        requires
            !(self == RootState::Done),
        ensures
            root_step_spec(self, ran, r.0, r.1),
    {
        match self {
            RootState::AsRoot => {
                let res = match ran {
                    Err(e) => Err(RootError::Spawn(e)),
                    Ok(true) => Ok(()),
                    Ok(false) => Err(RootError::RootCommandFailed),
                };
                (RootState::Done, RootAction::Finish(res))
            },
            RootState::ViaSudo { pkexec, su, command } => {
                if matches!(ran, Ok(true)) {
                    (RootState::Done, RootAction::Finish(Ok(())))
                } else {
                    let args = sh_dash_c(command.as_str());
                    (RootState::ViaPkexec { su, command }, RootAction::Run { program: pkexec, args })
                }
            },
            RootState::ViaPkexec { su, command } => {
                if matches!(ran, Ok(true)) {
                    (RootState::Done, RootAction::Finish(Ok(())))
                } else {
                    let args = dash_c(command.as_str());
                    (RootState::ViaSu, RootAction::Run { program: su, args })
                }
            },
            RootState::ViaSu => {
                let res = match ran {
                    Err(e) => Err(RootError::NoEscalation(e)),
                    Ok(true) => Ok(()),
                    Ok(false) => Err(RootError::SuCommandFailed),
                };
                (RootState::Done, RootAction::Finish(res))
            },
            RootState::Done => {
                proof {
                    assert(false);
                }
                (RootState::Done, RootAction::Finish(Ok(())))
            },
        }
    }
}

/// How many attempts a run has behind it; every step adds one.
pub open spec fn attempts(s: RootState) -> nat {
    match s {
        RootState::AsRoot => 0,
        RootState::ViaSudo { .. } => 0,
        RootState::ViaPkexec { .. } => 1,
        RootState::ViaSu => 2,
        RootState::Done => 3,
    }
}

/// A run ends after at most three attempts; a step ends the run exactly when
/// its action is `Finish`.
pub proof fn law_root_run_progresses<E>(s: RootState, ran: Result<bool, E>, s2: RootState, a: RootAction<E>)
    requires
        root_step_spec(s, ran, s2, a),
    ensures
        attempts(s) < attempts(s2),
        (s2 == RootState::Done) <==> (a is Finish),
{
}

/// An attempt that succeeds ends the run with success, and a run only ends
/// with success right after an attempt that succeeded: no later program is
/// started once one has run the command.
pub proof fn law_root_success_stops<E>(s: RootState, ran: Result<bool, E>, s2: RootState, a: RootAction<E>)
    requires
        root_step_spec(s, ran, s2, a),
    ensures
        ran == Ok::<bool, E>(true) ==> s2 == RootState::Done && a == RootAction::<E>::Finish(Ok(())),
        a == RootAction::<E>::Finish(Ok(())) ==> ran == Ok::<bool, E>(true),
{
}

/// As root no program is used to gain rights: the command runs under `sh`
/// and the run ends with that attempt.
pub proof fn law_root_runs_directly<E>(
    programs: EscalationPrograms,
    command: Seq<char>,
    s: RootState,
    a: RootAction<E>,
    ran: Result<bool, E>,
    s2: RootState,
    a2: RootAction<E>,
)
    requires
        root_start_spec(true, programs, command, s, a),
        root_step_spec(s, ran, s2, a2),
    ensures
        runs_dash_c(a, "sh"@, command),
        s2 == RootState::Done,
        a2 is Finish,
{
}

/// Without root rights the command is tried through `sudo`, then `pkexec`,
/// then `su`: each attempt that does not succeed (or cannot start) hands over
/// to the next program, in that order.
pub proof fn law_escalation_order<E>(
    programs: EscalationPrograms,
    command: Seq<char>,
    s0: RootState,
    a0: RootAction<E>,
    r0: Result<bool, E>,
    s1: RootState,
    a1: RootAction<E>,
    r1: Result<bool, E>,
    s2: RootState,
    a2: RootAction<E>,
)
    requires
        root_start_spec(false, programs, command, s0, a0),
        root_step_spec(s0, r0, s1, a1),
        r0 != Ok::<bool, E>(true),
        root_step_spec(s1, r1, s2, a2),
        r1 != Ok::<bool, E>(true),
    ensures
        runs_sh_dash_c(a0, programs.sudo@, command),
        runs_sh_dash_c(a1, programs.pkexec@, command),
        runs_dash_c(a2, programs.su@, command),
        s2 == RootState::ViaSu,
{
}

} // verus!
