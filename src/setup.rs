use vstd::prelude::*;

use crate::error::Error;
use crate::form::{
    last_value,
    assignment, assigns_unknown, assigns_valid, config_error_text, form_kinds, misfit_value,
    ParameterKind, form_text, form_texts, merge_arguments, merged_text, text_views,
};
use crate::params::{invalid_sink_model_text, parameter_tokens, sink_model_of, split_parameters, SinkModel};
use crate::text::same_text;

verus! {

/// The message that lists the names of all setups.
pub open spec fn setups_info_text() -> Seq<char> {
    "specify setup:\n"@ + "    binary\n"@ + "    explosion\n"@ + "    shocktube\n"@
        + "    collision\n"@ + "    sedov\n"@
}

/// The user information that lists every known setup by name.
pub fn possible_setups_info() -> (r: Error)
    ensures
        r is PrintUserInformation,
        r.text() == setups_info_text(),
{
    let mut message = String::new();
    message.append("specify setup:\n");
    message.append("    binary\n");
    message.append("    explosion\n");
    message.append("    shocktube\n");
    message.append("    collision\n");
    message.append("    sedov\n");
    assert(message@ =~= setups_info_text());
    Error::PrintUserInformation(message)
}

/// The five scenarios that a driver can ask for by name.
#[derive(Clone, Copy, Debug, PartialEq, Eq, Structural)]
pub enum SetupName {
    Binary,
    Explosion,
    Shocktube,
    Collision,
    Sedov,
}

/// Which equation of state a scenario closes its flow with.
#[derive(Clone, Copy, Debug, PartialEq, Eq, Structural)]
pub enum EquationOfStateKind {
    /// A fixed sound speed everywhere.
    Isothermal,
    /// A sound speed set by a fixed Mach number of the local orbital speed.
    LocallyIsothermal,
    /// An ideal gas with a fixed adiabatic index.
    GammaLaw,
}

/// The scenario that a name selects; names are matched exactly.
pub open spec fn setup_name_of(name: Seq<char>) -> Option<SetupName> {
    if name == "binary"@ {
        Some(SetupName::Binary)
    } else if name == "explosion"@ {
        Some(SetupName::Explosion)
    } else if name == "shocktube"@ {
        Some(SetupName::Shocktube)
    } else if name == "collision"@ {
        Some(SetupName::Collision)
    } else if name == "sedov"@ {
        Some(SetupName::Sedov)
    } else {
        None
    }
}

/// The name under which a scenario is asked for.
pub open spec fn name_text(s: SetupName) -> Seq<char> {
    match s {
        SetupName::Binary => "binary"@,
        SetupName::Explosion => "explosion"@,
        SetupName::Shocktube => "shocktube"@,
        SetupName::Collision => "collision"@,
        SetupName::Sedov => "sedov"@,
    }
}

/// The family of numerical solver whose primitive layout a scenario fills.
pub open spec fn solver_name_of(s: SetupName) -> Seq<char> {
    match s {
        SetupName::Binary => "iso2d"@,
        SetupName::Explosion => "iso2d"@,
        SetupName::Shocktube => "euler1d"@,
        SetupName::Collision => "euler1d"@,
        SetupName::Sedov => "euler1d"@,
    }
}

/// The equation of state of each scenario.
pub open spec fn equation_of_state_of(s: SetupName) -> EquationOfStateKind {
    match s {
        SetupName::Binary => EquationOfStateKind::LocallyIsothermal,
        SetupName::Explosion => EquationOfStateKind::Isothermal,
        _ => EquationOfStateKind::GammaLaw,
    }
}

/// Looking a scenario up by its own name finds that scenario, so every name
/// listed in the setup information selects the scenario it names.
pub proof fn name_round_trip(s: SetupName)
    ensures
        setup_name_of(name_text(s)) == Some(s),
{
    reveal_strlit("binary");
    reveal_strlit("explosion");
    reveal_strlit("shocktube");
    reveal_strlit("collision");
    reveal_strlit("sedov");
    assert("binary"@[0] == 'b' && "explosion"@[0] == 'e' && "shocktube"@[0] == 's'
        && "collision"@[0] == 'c' && "sedov"@[0] == 's');
    assert("shocktube"@.len() != "sedov"@.len());
}

/// The solver family agrees with the equation of state: the ideal-gas
/// scenarios are the ones meant for the one-dimensional compressible solver,
/// and the others for the two-dimensional isothermal one.
pub proof fn solver_matches_equation_of_state(s: SetupName)
    ensures
        solver_name_of(s) == "euler1d"@ <==> equation_of_state_of(s) == EquationOfStateKind::GammaLaw,
        solver_name_of(s) == "iso2d"@ <==> equation_of_state_of(s) != EquationOfStateKind::GammaLaw,
{
    reveal_strlit("euler1d");
    reveal_strlit("iso2d");
    assert("euler1d"@.len() != "iso2d"@.len());
}

impl SetupName {
    /// The scenario of the given name, or the user information that lists
    /// the valid names.
    pub fn from_name(name: &str) -> (r: Result<SetupName, Error>)
        ensures
            setup_name_of(name@) is Some ==> r == Ok::<SetupName, Error>(setup_name_of(name@)->0),
            setup_name_of(name@) is None ==> r is Err && r->Err_0 is PrintUserInformation
                && r->Err_0.text() == setups_info_text(),
    {
        if same_text(name, "binary") {
            Ok(SetupName::Binary)
        } else if same_text(name, "explosion") {
            Ok(SetupName::Explosion)
        } else if same_text(name, "shocktube") {
            Ok(SetupName::Shocktube)
        } else if same_text(name, "collision") {
            Ok(SetupName::Collision)
        } else if same_text(name, "sedov") {
            Ok(SetupName::Sedov)
        } else {
            Err(possible_setups_info())
        }
    }

    /// The name under which this scenario is asked for.
    pub fn name(&self) -> (r: String)
        ensures
            r@ == name_text(*self),
    {
        match self {
            SetupName::Binary => "binary".to_owned(),
            SetupName::Explosion => "explosion".to_owned(),
            SetupName::Shocktube => "shocktube".to_owned(),
            SetupName::Collision => "collision".to_owned(),
            SetupName::Sedov => "sedov".to_owned(),
        }
    }

    /// The solver family that this scenario is meant for.
    pub fn solver_name(&self) -> (r: String)
        ensures
            r@ == solver_name_of(*self),
    {
        match self {
            SetupName::Binary => "iso2d".to_owned(),
            SetupName::Explosion => "iso2d".to_owned(),
            SetupName::Shocktube => "euler1d".to_owned(),
            SetupName::Collision => "euler1d".to_owned(),
            SetupName::Sedov => "euler1d".to_owned(),
        }
    }

    /// The equation of state that this scenario uses.
    pub fn equation_of_state(&self) -> (r: EquationOfStateKind)
        ensures
            r == equation_of_state_of(*self),
    {
        match self {
            SetupName::Binary => EquationOfStateKind::LocallyIsothermal,
            SetupName::Explosion => EquationOfStateKind::Isothermal,
            _ => EquationOfStateKind::GammaLaw,
        }
    }
}

/// The message given when a scenario without parameters is handed some.
pub open spec fn no_parameters_text(problem: Seq<char>, parameters: Seq<char>) -> Seq<char> {
    problem + " problem does not take any parameters, got "@ + parameters
}

/// Accepts only an empty parameter string, for a scenario without parameters.
fn expect_no_parameters(problem: &str, parameters: &str) -> (r: Result<(), Error>)
    ensures
        parameters@.len() == 0 ==> r is Ok,
        parameters@.len() != 0 ==> r is Err && r->Err_0 is InvalidSetup && r->Err_0.text()
            == no_parameters_text(problem@, parameters@),
{
    if parameters.is_empty() {
        Ok(())
    } else {
        let mut message = String::new();
        message.append(problem);
        message.append(" problem does not take any parameters, got ");
        message.append(parameters);
        assert(message@ =~= no_parameters_text(problem@, parameters@));
        Err(Error::InvalidSetup(message))
    }
}

/// A uniform blast: dense gas inside a small disk, an isothermal flow on a
/// centered square.
#[derive(Clone, Copy, Debug, PartialEq, Eq, Structural)]
pub struct Explosion {}

/// Sod's shock tube on a uniform one-dimensional mesh over the unit interval.
#[derive(Clone, Copy, Debug, PartialEq, Eq, Structural)]
pub struct Shocktube {}

/// Two colliding Gaussian blobs on a one-dimensional mesh over [-1, 1].
#[derive(Clone, Copy, Debug, PartialEq, Eq, Structural)]
pub struct Collision {}

impl Explosion {
    /// Builds the scenario; it takes no parameters.
    pub fn from_str(parameters: &str) -> (r: Result<Explosion, Error>)
        ensures
            parameters@.len() == 0 <==> r is Ok,
            r is Err ==> r->Err_0 is InvalidSetup && r->Err_0.text() == no_parameters_text(
                "explosion"@,
                parameters@,
            ),
    {
        match expect_no_parameters("explosion", parameters) {
            Ok(()) => Ok(Explosion {}),
            Err(e) => Err(e),
        }
    }

    /// The scenario's name.
    pub fn setup_name(&self) -> (r: SetupName)
        ensures
            r == SetupName::Explosion,
    {
        SetupName::Explosion
    }

    /// The solver family: isothermal, two-dimensional.
    pub fn solver_name(&self) -> (r: String)
        ensures
            r@ == solver_name_of(SetupName::Explosion),
    {
        self.setup_name().solver_name()
    }

    /// The equation of state: isothermal.
    pub fn equation_of_state(&self) -> (r: EquationOfStateKind)
        ensures
            r == equation_of_state_of(SetupName::Explosion),
    {
        self.setup_name().equation_of_state()
    }
}

impl Shocktube {
    /// Builds the scenario; it takes no parameters.
    pub fn from_str(parameters: &str) -> (r: Result<Shocktube, Error>)
        ensures
            parameters@.len() == 0 <==> r is Ok,
            r is Err ==> r->Err_0 is InvalidSetup && r->Err_0.text() == no_parameters_text(
                "shocktube"@,
                parameters@,
            ),
    {
        match expect_no_parameters("shocktube", parameters) {
            Ok(()) => Ok(Shocktube {}),
            Err(e) => Err(e),
        }
    }

    /// The scenario's name.
    pub fn setup_name(&self) -> (r: SetupName)
        ensures
            r == SetupName::Shocktube,
    {
        SetupName::Shocktube
    }

    /// The solver family: compressible, one-dimensional.
    pub fn solver_name(&self) -> (r: String)
        ensures
            r@ == solver_name_of(SetupName::Shocktube),
    {
        self.setup_name().solver_name()
    }

    /// The equation of state: an ideal gas.
    pub fn equation_of_state(&self) -> (r: EquationOfStateKind)
        ensures
            r == equation_of_state_of(SetupName::Shocktube),
    {
        self.setup_name().equation_of_state()
    }
}

impl Collision {
    /// Builds the scenario; it takes no parameters.
    pub fn from_str(parameters: &str) -> (r: Result<Collision, Error>)
        ensures
            parameters@.len() == 0 <==> r is Ok,
            r is Err ==> r->Err_0 is InvalidSetup && r->Err_0.text() == no_parameters_text(
                "collision"@,
                parameters@,
            ),
    {
        match expect_no_parameters("collision", parameters) {
            Ok(()) => Ok(Collision {}),
            Err(e) => Err(e),
        }
    }

    /// The scenario's name.
    pub fn setup_name(&self) -> (r: SetupName)
        ensures
            r == SetupName::Collision,
    {
        SetupName::Collision
    }

    /// The solver family: compressible, one-dimensional.
    pub fn solver_name(&self) -> (r: String)
        ensures
            r@ == solver_name_of(SetupName::Collision),
    {
        self.setup_name().solver_name()
    }

    /// The equation of state: an ideal gas.
    pub fn equation_of_state(&self) -> (r: EquationOfStateKind)
        ensures
            r == equation_of_state_of(SetupName::Collision),
    {
        self.setup_name().equation_of_state()
    }
}

/// The sink model that the `sink_model` parameter of a form names, if the
/// form holds that parameter as a string and the string is a valid code.
pub open spec fn form_sink_model(texts: Map<Seq<char>, Seq<char>>) -> Option<SinkModel> {
    if texts.contains_key("sink_model"@) {
        sink_model_of(texts["sink_model"@])
    } else {
        None
    }
}

/// A circumbinary accretion disk: two point masses on a Keplerian orbit,
/// each with a sink, in a locally isothermal disk on a centered square.
/// Its parameters live in `form`; the sink model is read from it once, when
/// the setup is built.
pub struct Binary {
    pub form: kind_config::Form,
    pub sink_model: SinkModel,
}

impl Binary {
    /// Builds the setup from a form that already holds its parameters; fails
    /// where the form's `sink_model` is not one of "none", "af", "tf", "ff".
    pub fn from_merged(form: kind_config::Form) -> (r: Result<Binary, Error>)
        ensures
            form_sink_model(form_texts(form)) is Some <==> r is Ok,
            r is Ok ==> r->Ok_0.form == form && r->Ok_0.sink_model == form_sink_model(
                form_texts(form),
            )->0,
            r is Err ==> r->Err_0 is InvalidSetup && r->Err_0.text() == invalid_sink_model_text(),
    {
        let code = form_text(&form, "sink_model");
        let ghost texts = form_texts(form);
        match code {
            Some(code) => match SinkModel::from_code(code.as_str()) {
                Ok(sink_model) => Ok(Binary { form, sink_model }),
                Err(e) => Err(e),
            },
            None => {
                assert(!texts.contains_key("sink_model"@));
                Err(Error::InvalidSetup("invalid sink_model".to_owned()))
            },
        }
    }

    /// Builds the setup from its declared parameters with their defaults and
    /// a `':'`-separated parameter string of `key=value` tokens; empty tokens
    /// are ignored and a later token for a key overrides an earlier one. An
    /// unknown key, a badly formed token or value, and an invalid sink model
    /// code all fail.
    pub fn from_form(defaults: kind_config::Form, parameters: &str) -> (r: Result<Binary, Error>)
        ensures
            parameter_tokens(parameters@).len() == 0 ==> (r is Ok <==> form_sink_model(
                form_texts(defaults),
            ) is Some),
            parameter_tokens(parameters@).len() == 0 && r is Ok ==> form_texts(r->Ok_0.form)
                == form_texts(defaults),
            r is Ok ==> form_sink_model(form_texts(r->Ok_0.form)) == Some(r->Ok_0.sink_model),
            r is Ok ==> form_texts(r->Ok_0.form).dom() == form_texts(defaults).dom(),
            r is Ok ==> forall|key: Seq<char>| #[trigger]
                form_texts(defaults).contains_key(key) ==> form_texts(r->Ok_0.form)[key]
                    == merged_text(form_texts(defaults), parameter_tokens(parameters@), key),
            r is Ok ==> form_texts(defaults).contains_key("sink_model"@) && Some(r->Ok_0.sink_model)
                == sink_model_of(
                merged_text(form_texts(defaults), parameter_tokens(parameters@), "sink_model"@),
            ),
            (exists|k: int|
                0 <= k < parameter_tokens(parameters@).len() && assignment(
                    #[trigger] parameter_tokens(parameters@)[k],
                ) is None) ==> r is Err,
            (exists|k: int|
                0 <= k < parameter_tokens(parameters@).len() && assigns_unknown(
                    defaults,
                    #[trigger] parameter_tokens(parameters@)[k],
                )) ==> r is Err,
            (exists|key: Seq<char>|
                #[trigger] misfit_value(defaults, parameter_tokens(parameters@), key)) ==> r is Err,
            (forall|k: int|
                0 <= k < parameter_tokens(parameters@).len() ==> assigns_valid(
                    defaults,
                    #[trigger] parameter_tokens(parameters@)[k],
                )) && form_kinds(defaults).contains_key("sink_model"@) && form_kinds(
                defaults,
            )["sink_model"@] == ParameterKind::Text && sink_model_of(
                merged_text(form_texts(defaults), parameter_tokens(parameters@), "sink_model"@),
            ) is Some ==> r is Ok,
            r is Err ==> r->Err_0 is InvalidSetup && ("config key '"@.is_prefix_of(r->Err_0.text())
                || r->Err_0.text() == invalid_sink_model_text()),
    {
        let args = split_parameters(parameters);
        assert(text_views(args@) =~= parameter_tokens(parameters@));
        assert forall|k: int|
            0 <= k < parameter_tokens(parameters@).len() && assignment(
                #[trigger] parameter_tokens(parameters@)[k],
            ) is None implies assignment(args@[k]@) is None by {
            assert(args@[k]@ == parameter_tokens(parameters@)[k]);
        }
        assert forall|k: int|
            0 <= k < parameter_tokens(parameters@).len() && assigns_unknown(
                defaults,
                #[trigger] parameter_tokens(parameters@)[k],
            ) implies assigns_unknown(defaults, args@[k]@) by {
            assert(args@[k]@ == parameter_tokens(parameters@)[k]);
        }
        proof {
            if forall|k: int|
                0 <= k < parameter_tokens(parameters@).len() ==> assigns_valid(
                    defaults,
                    #[trigger] parameter_tokens(parameters@)[k],
                ) {
                assert forall|k: int| 0 <= k < args@.len() implies assigns_valid(
                    defaults,
                    #[trigger] args@[k]@,
                ) by {
                    assert(args@[k]@ == parameter_tokens(parameters@)[k]);
                }
            }
            if exists|key: Seq<char>|
                #[trigger] misfit_value(defaults, parameter_tokens(parameters@), key) {
                let key = choose|key: Seq<char>|
                    #[trigger] misfit_value(defaults, parameter_tokens(parameters@), key);
                assert(misfit_value(defaults, text_views(args@), key));
                assert(last_value(text_views(args@), key) is Some);
            }
        }
        match merge_arguments(defaults, args) {
            Ok(form) => Binary::from_merged(form),
            Err(e) => Err(Error::InvalidSetup(config_error_text(&e))),
        }
    }

    /// The scenario's name.
    pub fn setup_name(&self) -> (r: SetupName)
        ensures
            r == SetupName::Binary,
    {
        SetupName::Binary
    }

    /// The solver family: isothermal, two-dimensional.
    pub fn solver_name(&self) -> (r: String)
        ensures
            r@ == solver_name_of(SetupName::Binary),
    {
        self.setup_name().solver_name()
    }

    /// The equation of state: locally isothermal.
    pub fn equation_of_state(&self) -> (r: EquationOfStateKind)
        ensures
            r == equation_of_state_of(SetupName::Binary),
    {
        self.setup_name().equation_of_state()
    }
}

} // verus!
