use vstd::prelude::*;

use crate::error::Error;
use crate::text::{push_char, same_text};

verus! {

/// The token under construction, as a list of zero or one finished tokens.
pub open spec fn finished(cur: Seq<char>) -> Seq<Seq<char>> {
    if cur.len() == 0 {
        seq![]
    } else {
        seq![cur]
    }
}

/// The tokens of `s` separated by `':'`, empty ones left out, when `cur` has
/// already been read as the start of the first one.
pub open spec fn tokens_from(s: Seq<char>, cur: Seq<char>) -> Seq<Seq<char>>
    decreases s.len(),
{
    if s.len() == 0 {
        finished(cur)
    } else if s[0] == ':' {
        finished(cur) + tokens_from(s.drop_first(), seq![])
    } else {
        tokens_from(s.drop_first(), cur.push(s[0]))
    }
}

/// The non-empty `':'`-separated tokens of a parameter string, in order.
pub open spec fn parameter_tokens(s: Seq<char>) -> Seq<Seq<char>> {
    tokens_from(s, seq![])
}

/// Splits a parameter string at each `':'` and drops the empty tokens, so
/// that consecutive or trailing separators are ignored.
pub fn split_parameters(parameters: &str) -> (r: Vec<String>)
    ensures
        r@.len() == parameter_tokens(parameters@).len(),
        forall|k: int| 0 <= k < r@.len() ==> #[trigger] r@[k]@ == parameter_tokens(parameters@)[k],
{
    let n = parameters.unicode_len();
    let mut out: Vec<String> = Vec::new();
    let mut cur = String::new();
    let mut i: usize = 0;
    assert(parameters@.skip(0) =~= parameters@);
    assert(cur@ =~= seq![]);
    while i < n
        invariant
            n == parameters@.len(),
            i <= n,
            out@.len() + tokens_from(parameters@.skip(i as int), cur@).len()
                == parameter_tokens(parameters@).len(),
            forall|k: int|
                0 <= k < out@.len() ==> #[trigger] out@[k]@ == parameter_tokens(parameters@)[k],
            forall|k: int|
                0 <= k < tokens_from(parameters@.skip(i as int), cur@).len() ==> #[trigger] tokens_from(
                    parameters@.skip(i as int),
                    cur@,
                )[k] == parameter_tokens(parameters@)[out@.len() + k],
        decreases n - i,
    {
        let c = parameters.get_char(i);
        let ghost rest = parameters@.skip(i as int);
        let ghost before = out@;
        assert(rest.drop_first() =~= parameters@.skip(i + 1));
        assert(rest[0] == c);
        if c == ':' {
            let ghost old_cur = cur@;
            assert(tokens_from(rest, cur@) == finished(cur@) + tokens_from(
                parameters@.skip(i + 1),
                seq![],
            ));
            if cur.unicode_len() > 0 {
                assert(tokens_from(rest, old_cur)[0] == old_cur);
                out.push(cur);
                assert(out@[before.len() as int]@ == parameter_tokens(parameters@)[before.len() as int]);
            }
            cur = String::new();
            assert(cur@ =~= seq![]);
            assert forall|k: int|
                0 <= k < tokens_from(parameters@.skip(i + 1), cur@).len() implies #[trigger] tokens_from(
                    parameters@.skip(i + 1),
                    cur@,
                )[k] == parameter_tokens(parameters@)[out@.len() + k] by {
                assert(tokens_from(rest, old_cur)[finished(old_cur).len() + k] == tokens_from(
                    parameters@.skip(i + 1),
                    cur@,
                )[k]);
            }
        } else {
            assert(tokens_from(rest, cur@) == tokens_from(parameters@.skip(i + 1), cur@.push(c)));
            push_char(&mut cur, c);
        }
        i += 1;
    }
    assert(parameters@.skip(n as int) =~= Seq::<char>::empty());
    assert(tokens_from(parameters@.skip(n as int), cur@) == finished(cur@));
    if cur.unicode_len() > 0 {
        assert(tokens_from(parameters@.skip(n as int), cur@)[0] == cur@);
        let ghost old_out = out@;
        out.push(cur);
        assert(out@[old_out.len() as int]@ == parameter_tokens(parameters@)[old_out.len() as int]);
    }
    out
}

/// How momentum is removed from the flow near an accreting point mass.
#[derive(Clone, Copy, Debug, PartialEq, Eq, Structural)]
pub enum SinkModel {
    Inactive,
    AccelerationFree,
    TorqueFree,
    ForceFree,
}

/// The sink model that a short code names: "none", "af", "tf" or "ff".
pub open spec fn sink_model_of(code: Seq<char>) -> Option<SinkModel> {
    if code == "none"@ {
        Some(SinkModel::Inactive)
    } else if code == "af"@ {
        Some(SinkModel::AccelerationFree)
    } else if code == "tf"@ {
        Some(SinkModel::TorqueFree)
    } else if code == "ff"@ {
        Some(SinkModel::ForceFree)
    } else {
        None
    }
}

/// The message given for a sink model code that names no model.
pub open spec fn invalid_sink_model_text() -> Seq<char> {
    "invalid sink_model"@
}

impl SinkModel {
    /// Reads a sink model from its short code.
    pub fn from_code(code: &str) -> (r: Result<SinkModel, Error>)
        ensures
            sink_model_of(code@) is Some ==> r == Ok::<SinkModel, Error>(
                sink_model_of(code@)->0,
            ),
            sink_model_of(code@) is None ==> r is Err && r->Err_0 is InvalidSetup
                && r->Err_0.text() == invalid_sink_model_text(),
    {
        if same_text(code, "none") {
            Ok(SinkModel::Inactive)
        } else if same_text(code, "af") {
            Ok(SinkModel::AccelerationFree)
        } else if same_text(code, "tf") {
            Ok(SinkModel::TorqueFree)
        } else if same_text(code, "ff") {
            Ok(SinkModel::ForceFree)
        } else {
            Err(Error::InvalidSetup("invalid sink_model".to_owned()))
        }
    }
}

} // verus!
