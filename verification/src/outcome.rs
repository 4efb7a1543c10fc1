//! The command executor's classification layer: it interprets the exit
//! status and the diagnostic text of one invocation of the external
//! inventory tool and turns them into a [`CommandOutcome`], so that a
//! caller can skip a disabled or forbidden service instead of aborting
//! the whole inventory.

use vstd::prelude::*;
use crate::text::{contains_seq, contains_sub, joined_with_spaces, join_with_spaces};

verus! {

/// What one invocation of the external inventory tool produced, as
/// captured by the caller: the exit status and the two output streams,
/// decoded to text.
#[derive(Debug)]
pub struct RawInvocation {
    pub exit_ok: bool,
    pub stdout: String,
    pub stderr: String,
}

/// Why a failed invocation was suppressed rather than propagated.
#[derive(Debug)]
pub enum SuppressReason {
    ApiDisabled,
    PermissionDenied,
    Unexpected(String),
}

/// The classified result of one external invocation: either the raw
/// successful output, verbatim, or a suppressed, classified failure.
/// A `Suppressed` outcome never carries usable stdout.
#[derive(Debug)]
pub enum CommandOutcome {
    Data(String),
    Suppressed(SuppressReason),
}

/// The fixed phrases that mark a diagnostic as "API disabled"
/// (English and Spanish variants, case-sensitive).
pub open spec fn api_disabled_phrases() -> Seq<Seq<char>> {
    seq![
        "has not been used in project"@,
        "is disabled"@,
        "API not enabled"@,
        "no ha sido utilizada en el proyecto"@,
        "está deshabilitada"@,
        "API no habilitada"@,
    ]
}

/// The fixed phrases that mark a diagnostic as "permission denied"
/// (English and Spanish variants, case-sensitive).
pub open spec fn permission_denied_phrases() -> Seq<Seq<char>> {
    seq![
        "403 Forbidden"@,
        "Permission denied"@,
        "The caller does not have permission"@,
        "Permiso denegado"@,
        "El llamador no tiene permiso"@,
        "insufficent permissions"@,
        "permisos insuficientes"@,
        "required 'serviceusage.services.use' permission"@,
        "requiere el permiso 'serviceusage_services.use'"@,
    ]
}

/// `diag` contains at least one phrase of `phrases`.
pub open spec fn matches_any(diag: Seq<char>, phrases: Seq<Seq<char>>) -> bool {
    exists|k: int| 0 <= k < phrases.len() && contains_seq(diag, #[trigger] phrases[k])
}

/// The diagnostic says the service's API is disabled.
pub open spec fn is_api_disabled_diag(diag: Seq<char>) -> bool {
    matches_any(diag, api_disabled_phrases())
}

/// The diagnostic says the caller lacks permission.
pub open spec fn is_permission_denied_diag(diag: Seq<char>) -> bool {
    matches_any(diag, permission_denied_phrases())
}

/// Scan a diagnostic against a phrase table.
fn contains_any(diag: &str, phrases: &Vec<&str>) -> (b: bool)
    ensures
        b == matches_any(diag@, phrases.deep_view()),
{
    let n = phrases.len();
    let mut i: usize = 0;
    while i < n
        invariant
            n == phrases@.len(),
            i <= n,
            forall|k: int| 0 <= k < i ==> !contains_seq(diag@, #[trigger] phrases.deep_view()[k]),
        decreases n - i,
    {
        if contains_sub(diag, phrases[i]) {
            proof {
                assert(contains_seq(diag@, phrases.deep_view()[i as int]));
            }
            return true;
        }
        i = i + 1;
    }
    false
}

/// The API-disabled phrase table as executable data.
fn api_disabled_phrase_list() -> (v: Vec<&'static str>)
    ensures
        v.deep_view() == api_disabled_phrases(),
{
    let mut v: Vec<&'static str> = Vec::new();
    v.push("has not been used in project");
    v.push("is disabled");
    v.push("API not enabled");
    v.push("no ha sido utilizada en el proyecto");
    v.push("está deshabilitada");
    v.push("API no habilitada");
    proof {
        assert(v.deep_view() =~~= api_disabled_phrases());
    }
    v
}

/// The permission-denied phrase table as executable data.
fn permission_denied_phrase_list() -> (v: Vec<&'static str>)
    ensures
        v.deep_view() == permission_denied_phrases(),
{
    let mut v: Vec<&'static str> = Vec::new();
    v.push("403 Forbidden");
    v.push("Permission denied");
    v.push("The caller does not have permission");
    v.push("Permiso denegado");
    v.push("El llamador no tiene permiso");
    v.push("insufficent permissions");
    v.push("permisos insuficientes");
    v.push("required 'serviceusage.services.use' permission");
    v.push("requiere el permiso 'serviceusage_services.use'");
    proof {
        assert(v.deep_view() =~~= permission_denied_phrases());
    }
    v
}

/// Scan a captured stderr text against the API-disabled phrase set.
pub fn diag_is_api_disabled(diag: &str) -> (b: bool)
    ensures
        b == is_api_disabled_diag(diag@),
{
    let phrases = api_disabled_phrase_list();
    contains_any(diag, &phrases)
}

/// Scan a captured stderr text against the permission-denied phrase set.
pub fn diag_is_permission_denied(diag: &str) -> (b: bool)
    ensures
        b == is_permission_denied_diag(diag@),
{
    let phrases = permission_denied_phrase_list();
    contains_any(diag, &phrases)
}

/// Classify one captured invocation of the external tool.
///
/// A successful exit returns the captured stdout verbatim, even when it is
/// an empty-collection document.  A failing exit is classified by its
/// diagnostic text: the API-disabled phrases take precedence, then the
/// permission-denied phrases, and anything else is an unexpected failure
/// carrying the diagnostic verbatim.  No failure is ever propagated as an
/// error: every failure path yields a `Suppressed` outcome.
pub fn execute(raw: RawInvocation) -> (o: CommandOutcome)
    ensures
        o is Data <==> raw.exit_ok,
        raw.exit_ok ==> o == CommandOutcome::Data(raw.stdout),
        !raw.exit_ok && is_api_disabled_diag(raw.stderr@) ==> o
            == CommandOutcome::Suppressed(SuppressReason::ApiDisabled),
        !raw.exit_ok && !is_api_disabled_diag(raw.stderr@) && is_permission_denied_diag(
            raw.stderr@,
        ) ==> o == CommandOutcome::Suppressed(SuppressReason::PermissionDenied),
        !raw.exit_ok && !is_api_disabled_diag(raw.stderr@) && !is_permission_denied_diag(
            raw.stderr@,
        ) ==> o == CommandOutcome::Suppressed(SuppressReason::Unexpected(raw.stderr)),
{
    if raw.exit_ok {
        CommandOutcome::Data(raw.stdout)
    } else if diag_is_api_disabled(raw.stderr.as_str()) {
        CommandOutcome::Suppressed(SuppressReason::ApiDisabled)
    } else if diag_is_permission_denied(raw.stderr.as_str()) {
        CommandOutcome::Suppressed(SuppressReason::PermissionDenied)
    } else {
        CommandOutcome::Suppressed(SuppressReason::Unexpected(raw.stderr))
    }
}

/// The operator notice for a skipped service whose API is disabled.
pub open spec fn api_disabled_notice(cmd: Seq<char>) -> Seq<char> {
    "API deshabilitada para: gcloud "@ + cmd
        + "\n -> Este servicio será omitido automáticamente."@
}

/// The operator notice for a service the caller may not access.
pub open spec fn permission_denied_notice(cmd: Seq<char>) -> Seq<char> {
    "Accesso denegado (403 Forbidden) o permisos insuficientes para: gcloud "@ + cmd
        + "\n -> Este servicio será omitido o no se podrá acceder. Por favor, verifica tus permisos."@
}

/// The operator notice for an unexpected failure, quoting the diagnostic.
pub open spec fn unexpected_notice(cmd: Seq<char>, diag: Seq<char>) -> Seq<char> {
    "Error inesperado ejecutando gcloud "@ + cmd + ": "@ + diag
}

/// The operator-facing notice for a classified outcome, naming the invoked
/// command; a successful invocation warrants none.  `args` is the argument
/// list the external tool was invoked with.
pub fn notice_for(args: &Vec<String>, o: &CommandOutcome) -> (n: Option<String>)
    ensures
        n is Some <==> o is Suppressed,
        o == CommandOutcome::Suppressed(SuppressReason::ApiDisabled) ==> (n matches Some(t)
            && t@ == api_disabled_notice(joined_with_spaces(args.deep_view()))),
        o == CommandOutcome::Suppressed(SuppressReason::PermissionDenied) ==> (n matches Some(t)
            && t@ == permission_denied_notice(joined_with_spaces(args.deep_view()))),
        o matches CommandOutcome::Suppressed(SuppressReason::Unexpected(d)) ==> (n matches Some(t)
            && t@ == unexpected_notice(joined_with_spaces(args.deep_view()), d@)),
{
    match o {
        CommandOutcome::Data(_) => None,
        CommandOutcome::Suppressed(SuppressReason::ApiDisabled) => {
            let cmd = join_with_spaces(args);
            let mut s = String::from_str("API deshabilitada para: gcloud ");
            s.append(cmd.as_str());
            s.append("\n -> Este servicio será omitido automáticamente.");
            Some(s)
        },
        CommandOutcome::Suppressed(SuppressReason::PermissionDenied) => {
            let cmd = join_with_spaces(args);
            let mut s = String::from_str(
                "Accesso denegado (403 Forbidden) o permisos insuficientes para: gcloud ",
            );
            s.append(cmd.as_str());
            s.append(
                "\n -> Este servicio será omitido o no se podrá acceder. Por favor, verifica tus permisos.",
            );
            Some(s)
        },
        CommandOutcome::Suppressed(SuppressReason::Unexpected(d)) => {
            let cmd = join_with_spaces(args);
            let mut s = String::from_str("Error inesperado ejecutando gcloud ");
            s.append(cmd.as_str());
            s.append(": ");
            s.append(d.as_str());
            Some(s)
        },
    }
}

/// The payload a caller may parse: the captured stdout of a successful
/// invocation.  A suppressed outcome yields none, and the caller treats it
/// as an empty record set.
pub fn payload_of(o: CommandOutcome) -> (r: Option<String>)
    ensures
        r is Some <==> o is Data,
        o matches CommandOutcome::Data(t) ==> r == Some(t),
{
    match o {
        CommandOutcome::Data(t) => Some(t),
        CommandOutcome::Suppressed(_) => None,
    }
}

} // verus!
