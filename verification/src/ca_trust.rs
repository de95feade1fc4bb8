//! Making a guest trust the certificate of the host's proxy.

use vstd::prelude::*;
use crate::text;

verus! {

/// Something to do in the guest.
#[derive(Debug)]
pub enum TrustAction {
    /// Make this directory and those above it.
    MakeDir(String),
    /// Write the certificate to this file.
    WritePem(String),
    /// Run a program with arguments.
    Run(String, Vec<String>),
}

/// A [`TrustAction`] with its texts.
pub enum TrustOp {
    MakeDir(Seq<char>),
    WritePem(Seq<char>),
    Run(Seq<char>, Seq<Seq<char>>),
}

impl View for TrustAction {
    type V = TrustOp;

    open spec fn view(&self) -> TrustOp {
        match *self {
            TrustAction::MakeDir(p) => TrustOp::MakeDir(p@),
            TrustAction::WritePem(p) => TrustOp::WritePem(p@),
            TrustAction::Run(c, args) => TrustOp::Run(c@, text::views(args@)),
        }
    }
}

/// A step of the installation.
#[derive(Debug)]
pub struct TrustStep {
    /// What to do.
    pub action: TrustAction,
    /// Whether the installation fails where this fails.
    pub required: bool,
}

/// The steps of a list.
pub open spec fn step_views(v: Seq<TrustStep>) -> Seq<(TrustOp, bool)> {
    Seq::new(v.len(), |i: int| (v[i].action@, v[i].required))
}

/// The steps of the installation, and whether each has to succeed. Certificates
/// go to three places, of which the last is only used by some distributions;
/// then whatever refreshes the system's bundles is run where it exists.
pub open spec fn trust_steps() -> Seq<(TrustOp, bool)> {
    seq![
        (TrustOp::MakeDir("/usr/local/share/ca-certificates"@), true),
        (TrustOp::WritePem("/usr/local/share/ca-certificates/bux-mitm-ca.crt"@), true),
        (TrustOp::MakeDir("/etc/ssl/certs"@), true),
        (TrustOp::WritePem("/etc/ssl/certs/bux-mitm-ca.pem"@), true),
        (TrustOp::MakeDir("/etc/pki/ca-trust/source/anchors"@), false),
        (TrustOp::WritePem("/etc/pki/ca-trust/source/anchors/bux-mitm-ca.pem"@), false),
        (TrustOp::Run("update-ca-certificates"@, seq![]), false),
        (TrustOp::Run("update-ca-trust"@, seq!["extract"@]), false),
    ]
}

/// Plans the installation of a certificate.
pub fn install_mitm_ca() -> (r: Vec<TrustStep>)
    ensures
        step_views(r@) == trust_steps(),
{
    let none: Vec<String> = Vec::new();
    let mut extract: Vec<String> = Vec::new();
    extract.push("extract".to_owned());
    assert(text::views(none@) =~= seq![]);
    assert(text::views(extract@) =~= seq!["extract"@]);
    let mut v: Vec<TrustStep> = Vec::new();
    v.push(
        TrustStep {
            action: TrustAction::MakeDir("/usr/local/share/ca-certificates".to_owned()),
            required: true,
        },
    );
    v.push(
        TrustStep {
            action: TrustAction::WritePem(
                "/usr/local/share/ca-certificates/bux-mitm-ca.crt".to_owned(),
            ),
            required: true,
        },
    );
    v.push(
        TrustStep { action: TrustAction::MakeDir("/etc/ssl/certs".to_owned()), required: true },
    );
    v.push(
        TrustStep {
            action: TrustAction::WritePem("/etc/ssl/certs/bux-mitm-ca.pem".to_owned()),
            required: true,
        },
    );
    v.push(
        TrustStep {
            action: TrustAction::MakeDir("/etc/pki/ca-trust/source/anchors".to_owned()),
            required: false,
        },
    );
    v.push(
        TrustStep {
            action: TrustAction::WritePem(
                "/etc/pki/ca-trust/source/anchors/bux-mitm-ca.pem".to_owned(),
            ),
            required: false,
        },
    );
    v.push(
        TrustStep {
            action: TrustAction::Run("update-ca-certificates".to_owned(), none),
            required: false,
        },
    );
    v.push(
        TrustStep {
            action: TrustAction::Run("update-ca-trust".to_owned(), extract),
            required: false,
        },
    );
    assert(step_views(v@) =~= trust_steps());
    v
}

/// Whether the installation goes on after a step.
pub fn goes_on(step: &TrustStep, ok: bool) -> (r: bool)
    ensures
        r <==> ok || !step.required,
{
    ok || !step.required
}

/// How many steps of an installation are taken, where each step succeeds or
/// fails as given.
pub open spec fn steps_taken(steps: Seq<(TrustOp, bool)>, ok: Seq<bool>) -> int
    decreases steps.len(),
{
    if steps.len() == 0 {
        0
    } else if !ok[0] && steps[0].1 {
        1
    } else {
        1 + steps_taken(steps.skip(1), ok.skip(1))
    }
}

/// Where the files that most tools read can be written, the installation
/// succeeds: nothing after them stops it.
pub proof fn law_only_the_common_places_matter(ok: Seq<bool>)
    requires
        ok.len() == trust_steps().len(),
        ok[0] && ok[1] && ok[2] && ok[3],
    ensures
        steps_taken(trust_steps(), ok) == trust_steps().len(),
{
    reveal_with_fuel(steps_taken, 9);
    let s = trust_steps();
    assert(s.len() == 8);
}

/// A certificate is written only into a directory that the step before makes,
/// and the two steps have to succeed together or not at all.
pub proof fn law_certificates_go_where_a_directory_was_made(i: int)
    requires
        0 <= i < trust_steps().len(),
    ensures
        trust_steps()[i].0 matches TrustOp::WritePem(p) ==> i > 0 && (trust_steps()[i
            - 1].0 matches TrustOp::MakeDir(d) && text::starts_with(p, d + "/"@)) && trust_steps()[i
            - 1].1 == trust_steps()[i].1,
        trust_steps()[i].0 is Run ==> !trust_steps()[i].1,
{
    reveal_strlit("/");
    reveal_strlit("/usr/local/share/ca-certificates");
    reveal_strlit("/usr/local/share/ca-certificates/bux-mitm-ca.crt");
    reveal_strlit("/etc/ssl/certs");
    reveal_strlit("/etc/ssl/certs/bux-mitm-ca.pem");
    reveal_strlit("/etc/pki/ca-trust/source/anchors");
    reveal_strlit("/etc/pki/ca-trust/source/anchors/bux-mitm-ca.pem");
    if i == 1 {
        let p = "/usr/local/share/ca-certificates/bux-mitm-ca.crt"@;
        let d = "/usr/local/share/ca-certificates"@ + "/"@;
        assert(p.take(d.len() as int) =~= d);
    } else if i == 3 {
        let p = "/etc/ssl/certs/bux-mitm-ca.pem"@;
        let d = "/etc/ssl/certs"@ + "/"@;
        assert(p.take(d.len() as int) =~= d);
    } else if i == 5 {
        let p = "/etc/pki/ca-trust/source/anchors/bux-mitm-ca.pem"@;
        let d = "/etc/pki/ca-trust/source/anchors"@ + "/"@;
        assert(p.take(d.len() as int) =~= d);
    }
}

/// Steps are taken up to the first that has to succeed and fails; all are where
/// there is none.
pub proof fn law_steps_are_taken_up_to_a_failure(steps: Seq<(TrustOp, bool)>, ok: Seq<bool>)
    requires
        ok.len() == steps.len(),
    ensures
        0 <= steps_taken(steps, ok) <= steps.len(),
        steps_taken(steps, ok) < steps.len() ==> {
            let k = steps_taken(steps, ok) - 1;
            k >= 0 && !ok[k] && steps[k].1
        },
        forall|j: int|
            0 <= j < steps_taken(steps, ok) - 1 ==> ok[j] || !(#[trigger] steps[j]).1,
    decreases steps.len(),
{
    if steps.len() > 0 && (ok[0] || !steps[0].1) {
        let s = steps.skip(1);
        let o = ok.skip(1);
        law_steps_are_taken_up_to_a_failure(s, o);
        assert forall|j: int| 0 <= j < steps_taken(steps, ok) - 1 implies ok[j] || !(
        #[trigger] steps[j]).1 by {
            if j > 0 {
                assert(s[j - 1] == steps[j]);
                assert(o[j - 1] == ok[j]);
            }
        }
        if steps_taken(s, o) < s.len() {
            let k = steps_taken(s, o) - 1;
            assert(s[k] == steps[k + 1]);
            assert(o[k] == ok[k + 1]);
        }
    }
}

} // verus!
