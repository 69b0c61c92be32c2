use vstd::prelude::*;

verus! {

/// A parameter form of the `kind_config` crate: named, typed, defaulted and
/// documented parameters, updated from `key=value` arguments.
#[verifier::external_type_specification]
#[verifier::external_body]
pub struct ExForm(kind_config::Form);

/// The failure of a form to take an argument: an unknown key, a badly formed
/// argument, or a value of the wrong kind.
#[verifier::external_type_specification]
#[verifier::external_body]
pub struct ExConfigError(kind_config::ConfigError);

/// The string-valued parameters that a form holds, by name.
pub uninterp spec fn form_texts(f: kind_config::Form) -> Map<Seq<char>, Seq<char>>;

/// The kind of value that a form parameter was declared with.
#[derive(Clone, Copy, Debug, PartialEq, Eq, Structural)]
pub enum ParameterKind {
    Bool,
    Int,
    Float,
    Text,
}

/// Every parameter that a form declares, with its kind.
pub uninterp spec fn form_kinds(f: kind_config::Form) -> Map<Seq<char>, ParameterKind>;

/// Whether the text parses as an `i64` (`str::parse::<i64>` succeeds).
pub uninterp spec fn parses_as_int(s: Seq<char>) -> bool;

/// Whether the text parses as a double-precision float
/// (`str::parse` into a float succeeds).
pub uninterp spec fn parses_as_float(s: Seq<char>) -> bool;

/// Whether a value text parses as the given kind; a `bool` is written
/// `true` or `false`, and any text is a string.
pub open spec fn value_fits(kind: ParameterKind, v: Seq<char>) -> bool {
    match kind {
        ParameterKind::Bool => v == "true"@ || v == "false"@,
        ParameterKind::Int => parses_as_int(v),
        ParameterKind::Float => parses_as_float(v),
        ParameterKind::Text => true,
    }
}

/// The names of the parameters that a form holds frozen.
pub uninterp spec fn form_frozen(f: kind_config::Form) -> Set<Seq<char>>;

/// Number of `'='` characters in a token.
pub open spec fn count_equals(t: Seq<char>) -> nat
    decreases t.len(),
{
    if t.len() == 0 {
        0
    } else {
        count_equals(t.drop_last()) + if t.last() == '=' {
            1nat
        } else {
            0nat
        }
    }
}

/// Index of the first `'='` of a token, or its length if it has none.
pub open spec fn first_equals(t: Seq<char>) -> int
    decreases t.len(),
{
    if t.len() == 0 {
        0
    } else if t[0] == '=' {
        0
    } else {
        1 + first_equals(t.drop_first())
    }
}

/// The key and the value of a `key=value` token; a token with no `'='`, or
/// with more than one, is no assignment.
pub open spec fn assignment(t: Seq<char>) -> Option<(Seq<char>, Seq<char>)> {
    if count_equals(t) == 1 {
        Some((t.take(first_equals(t)), t.skip(first_equals(t) + 1)))
    } else {
        None
    }
}

/// The value that the last assignment to `key` among `tokens` gives it.
pub open spec fn last_value(tokens: Seq<Seq<char>>, key: Seq<char>) -> Option<Seq<char>>
    decreases tokens.len(),
{
    if tokens.len() == 0 {
        None
    } else {
        match assignment(tokens.last()) {
            Some(kv) if kv.0 == key => Some(kv.1),
            _ => last_value(tokens.drop_last(), key),
        }
    }
}

/// The value of a string parameter after the tokens are applied to a form
/// whose string parameters are `texts`: the last assignment to it wins.
pub open spec fn merged_text(
    texts: Map<Seq<char>, Seq<char>>,
    tokens: Seq<Seq<char>>,
    key: Seq<char>,
) -> Seq<char> {
    match last_value(tokens, key) {
        Some(v) => v,
        None => texts[key],
    }
}

/// Of several assignments to one parameter the last one wins: whatever came
/// before, a final `key=value` token leaves the parameter at `value`.
pub proof fn later_assignment_wins(
    texts: Map<Seq<char>, Seq<char>>,
    tokens: Seq<Seq<char>>,
    token: Seq<char>,
    key: Seq<char>,
    value: Seq<char>,
)
    requires
        assignment(token) == Some((key, value)),
    ensures
        merged_text(texts, tokens.push(token), key) == value,
{
    assert(tokens.push(token).last() == token);
}

/// A string parameter that no token assigns keeps its value.
pub proof fn unassigned_parameter_is_kept(
    texts: Map<Seq<char>, Seq<char>>,
    tokens: Seq<Seq<char>>,
    key: Seq<char>,
)
    requires
        forall|k: int|
            0 <= k < tokens.len() ==> !(assignment(#[trigger] tokens[k]) matches Some(kv) && kv.0
                == key),
    ensures
        merged_text(texts, tokens, key) == texts[key],
    decreases tokens.len(),
{
    if tokens.len() > 0 {
        let rest = tokens.drop_last();
        assert forall|k: int|
            0 <= k < rest.len() implies !(assignment(#[trigger] rest[k]) matches Some(kv) && kv.0
            == key) by {
            assert(rest[k] == tokens[k]);
        }
        unassigned_parameter_is_kept(texts, rest, key);
        assert(tokens.last() == tokens[tokens.len() - 1]);
    }
}

/// A token assigns a declared, unfrozen parameter a value of its kind.
pub open spec fn assigns_valid(f: kind_config::Form, t: Seq<char>) -> bool {
    assignment(t) matches Some(kv) && form_kinds(f).contains_key(kv.0) && !form_frozen(
        f,
    ).contains(kv.0) && value_fits(form_kinds(f)[kv.0], kv.1)
}

/// A token assigns a parameter that the form does not declare.
pub open spec fn assigns_unknown(f: kind_config::Form, t: Seq<char>) -> bool {
    assignment(t) matches Some(kv) && !form_kinds(f).contains_key(kv.0)
}

/// The last value that the tokens give a declared parameter does not parse
/// as the parameter's kind.
pub open spec fn misfit_value(f: kind_config::Form, tokens: Seq<Seq<char>>, key: Seq<char>) -> bool {
    last_value(tokens, key) matches Some(v) && form_kinds(f).contains_key(key) && !value_fits(
        form_kinds(f)[key],
        v,
    )
}

/// The characters of each string.
pub open spec fn text_views(v: Seq<String>) -> Seq<Seq<char>> {
    v.map_values(|s: String| s@)
}

/// Relies on `kind_config::Form::merge_string_args_allowing_duplicates`: each
/// `key=value` argument updates the declared parameter of that key, a later
/// argument for a key overriding an earlier one. An argument that is not of
/// that shape fails, so does one whose key is not declared, and so does a
/// key whose last value does not parse as the key's kind (`bool`, `i64`,
/// `f64` or string, by `str::parse`). Arguments that all assign unfrozen
/// parameters values of their kinds succeed. Parameters keep their kinds.
/// With no arguments the form comes back unchanged.
#[verifier::external_body]
pub(crate) fn merge_arguments(form: kind_config::Form, args: Vec<String>) -> (r: Result<
    kind_config::Form,
    kind_config::ConfigError,
>)
    ensures
        args@.len() == 0 ==> r is Ok && form_texts(r->Ok_0) == form_texts(form),
        (exists|k: int| 0 <= k < args@.len() && assignment(#[trigger] args@[k]@) is None)
            ==> r is Err,
        (forall|k: int|
            0 <= k < args@.len() ==> (assignment(#[trigger] args@[k]@) matches Some(kv)
                && form_kinds(form).contains_key(kv.0) && !form_frozen(form).contains(kv.0) && (
            form_kinds(form)[kv.0] == ParameterKind::Bool ==> kv.1 == "true"@ || kv.1
                == "false"@) && (form_kinds(form)[kv.0] == ParameterKind::Int ==> parses_as_int(
                kv.1,
            )) && (form_kinds(form)[kv.0] == ParameterKind::Float ==> parses_as_float(kv.1))))
            ==> r is Ok,
        (exists|k: int|
            0 <= k < args@.len() && (assignment(#[trigger] args@[k]@) matches Some(kv)
                && !form_kinds(form).contains_key(kv.0))) ==> r is Err,
        (exists|key: Seq<char>|
            #[trigger] last_value(text_views(args@), key) matches Some(v) && form_kinds(
                form,
            ).contains_key(key) && ((form_kinds(form)[key] == ParameterKind::Bool && v != "true"@
                && v != "false"@) || (form_kinds(form)[key] == ParameterKind::Int
                && !parses_as_int(v)) || (form_kinds(form)[key] == ParameterKind::Float
                && !parses_as_float(v)))) ==> r is Err,
        r is Ok ==> form_kinds(r->Ok_0) == form_kinds(form),
        r is Ok ==> forall|key: Seq<char>| #[trigger]
            form_texts(r->Ok_0).contains_key(key) <==> form_kinds(r->Ok_0).contains_key(key)
                && form_kinds(r->Ok_0)[key] == ParameterKind::Text,
        r is Ok ==> form_texts(r->Ok_0).dom() == form_texts(form).dom(),
        r is Ok ==> forall|key: Seq<char>| #[trigger]
            form_texts(form).contains_key(key) ==> form_texts(r->Ok_0)[key] == merged_text(
                form_texts(form),
                text_views(args@),
                key,
            ),
{
    form.merge_string_args_allowing_duplicates(args)
}

/// Relies on `kind_config::Form::value_map`: the value of a parameter, here
/// taken only where it is a string.
#[verifier::external_body]
pub(crate) fn form_text(form: &kind_config::Form, key: &str) -> (r: Option<String>)
    ensures
        r is Some <==> form_texts(*form).contains_key(key@),
        r is Some ==> r->0@ == form_texts(*form)[key@],
{
    match form.value_map().get(key) {
        Some(kind_config::Value::S(s)) => Some(s.clone()),
        _ => None,
    }
}

/// Relies on the `Display` of `kind_config::ConfigError`, which writes
/// "config key '<key>' <reason>".
#[verifier::external_body]
pub(crate) fn config_error_text(e: &kind_config::ConfigError) -> (r: String)
    ensures
        "config key '"@.is_prefix_of(r@),
{
    format!("{}", e)
}

} // verus!
