//! What starting the gateway means.

use vstd::prelude::*;

use crate::error::Error;
use crate::text;

verus! {

/// The integrated mode: a model that the gateway starts itself.
#[derive(Debug, PartialEq, Eq)]
pub struct ServeCommand {
    pub model: String,
    pub port: u16,
    pub llm_args: Vec<String>,
}

/// What starting the gateway comes to.
#[derive(Debug, PartialEq, Eq)]
pub struct Launch {
    /// The inference server that the gateway talks to.
    pub llm_api_base: String,
    /// The arguments of the inference server that is to be started first, if one is.
    pub llm_args: Option<Vec<String>>,
}

// ---------------------------------------------------------------------------
// Models
// ---------------------------------------------------------------------------

/// The decimal digits of a number.
pub open spec fn decimal(number: nat) -> Seq<char>
    decreases number,
{
    if number < 10 {
        seq![('0' as u32 + number) as char]
    } else {
        decimal(number / 10).push(('0' as u32 + number % 10) as char)
    }
}

/// The address of an inference server on this machine.
pub open spec fn local_base(port: u16) -> Seq<char> {
    "http://127.0.0.1:"@ + decimal(port as nat)
}

/// What starting the gateway comes to: in standalone mode it needs a base URL, from
/// the argument or the file; in integrated mode it refuses one and starts the model on
/// a port of this machine.
pub open spec fn launch_plan(
    command: Option<ServeCommand>,
    argument: Option<Seq<char>>,
    file: Option<Seq<char>>,
) -> Result<(Seq<char>, Option<Seq<Seq<char>>>), Seq<char>> {
    match command {
        None => match text::first_of(argument, file) {
            Some(base) => Ok((base, None)),
            None => Err(
                "standalone mode requires llm_api_base in config.toml, LLM_API_BASE, or --llm-api-base; use `agentic-server serve <model>` for integrated mode"@,
            ),
        },
        Some(serve) => if argument is Some {
            Err("--llm-api-base is only valid in standalone mode; remove it when using `serve`"@)
        } else {
            Ok(
                (
                    local_base(serve.port),
                    Some(
                        seq!["--model"@, serve.model@, "--port"@, decimal(serve.port as nat)] + text::texts(
                            serve.llm_args@,
                        ),
                    ),
                ),
            )
        },
    }
}

impl View for Launch {
    type V = (Seq<char>, Option<Seq<Seq<char>>>);

    open spec fn view(&self) -> (Seq<char>, Option<Seq<Seq<char>>>) {
        (
            self.llm_api_base@,
            match self.llm_args {
                Some(args) => Some(text::texts(args@)),
                None => None,
            },
        )
    }
}

// ---------------------------------------------------------------------------
// Planning
// ---------------------------------------------------------------------------

/// A decimal digit.
fn digit(value: u16) -> (name: &'static str)
    requires
        value < 10,
    ensures
        name@ == seq![('0' as u32 + value) as char],
{
    proof {
        reveal_strlit("0");
        reveal_strlit("1");
        reveal_strlit("2");
        reveal_strlit("3");
        reveal_strlit("4");
        reveal_strlit("5");
        reveal_strlit("6");
        reveal_strlit("7");
        reveal_strlit("8");
        reveal_strlit("9");
    }
    let name: &'static str = match value {
        0 => "0",
        1 => "1",
        2 => "2",
        3 => "3",
        4 => "4",
        5 => "5",
        6 => "6",
        7 => "7",
        8 => "8",
        _ => "9",
    };
    assert(name@ =~= seq![('0' as u32 + value) as char]);
    name
}

/// A number in decimal.
pub fn decimal_text(number: u16) -> (digits: String)
    ensures
        digits@ == decimal(number as nat),
    decreases number,
{
    if number < 10 {
        digit(number).to_owned()
    } else {
        let digits: String = decimal_text(number / 10).concat(digit(number % 10));
        assert(digits@ =~= decimal(number as nat));
        digits
    }
}

/// The arguments of the inference server.
fn server_args(serve: ServeCommand) -> (args: Vec<String>)
    ensures
        text::texts(args@) == seq!["--model"@, serve.model@, "--port"@, decimal(serve.port as nat)] + text::texts(
            serve.llm_args@,
        ),
{
    let ghost extra = serve.llm_args@;
    let mut args: Vec<String> = vec!["--model".to_owned(), serve.model];
    args.push("--port".to_owned());
    args.push(decimal_text(serve.port));
    let mut llm_args: Vec<String> = serve.llm_args;
    args.append(&mut llm_args);
    assert(text::texts(args@) =~= seq!["--model"@, serve.model@, "--port"@, decimal(serve.port as nat)]
        + text::texts(extra));
    args
}

/// What starting the gateway comes to.
///
/// # Errors
/// Says what is missing where standalone mode has no base URL, and that a base URL has
/// no place in integrated mode.
pub fn plan_launch(
    command: Option<ServeCommand>,
    llm_api_base: Option<String>,
    file_llm_api_base: Option<String>,
) -> (r: Result<Launch, Error>)
    ensures
        (match r {
            Ok(launch) => Ok(launch@),
            Err(error) => Err(error@),
        }) == launch_plan(command, text::opt_text(llm_api_base), text::opt_text(file_llm_api_base)),
{
    match command {
        None => {
            let base: Option<String> = match llm_api_base {
                Some(base) => Some(base),
                None => file_llm_api_base,
            };
            match base {
                Some(base) => Ok(Launch { llm_api_base: base, llm_args: None }),
                None => Err(
                    Error::Config(
                        "standalone mode requires llm_api_base in config.toml, LLM_API_BASE, or --llm-api-base; use `agentic-server serve <model>` for integrated mode".to_owned(),
                    ),
                ),
            }
        },
        Some(serve) => {
            if llm_api_base.is_some() {
                return Err(
                    Error::Config(
                        "--llm-api-base is only valid in standalone mode; remove it when using `serve`".to_owned(),
                    ),
                );
            }
            let base: String = "http://127.0.0.1:".to_owned().concat(decimal_text(serve.port).as_str());
            Ok(Launch { llm_api_base: base, llm_args: Some(server_args(serve)) })
        },
    }
}

// ---------------------------------------------------------------------------
// Laws
// ---------------------------------------------------------------------------

/// A number's digits are decimal digits and stand for the number.
pub proof fn law_decimal_digits_stand_for_the_number(number: nat)
    ensures
        text::unsigned_value(decimal(number)) == Some(number),
{
    lemma_decimal(number);
    let digits = decimal(number);
    assert('0' <= digits[0]);
}

proof fn lemma_decimal(number: nat)
    ensures
        decimal(number).len() > 0,
        forall|i: int| 0 <= i < decimal(number).len() ==> '0' <= #[trigger] decimal(number)[i] <= '9',
        text::digits_value(decimal(number)) == number,
    decreases number,
{
    if number < 10 {
        assert(decimal(number).drop_last() =~= Seq::empty());
        assert(text::digits_value(Seq::empty()) == 0);
    } else {
        lemma_decimal(number / 10);
        assert(decimal(number).drop_last() =~= decimal(number / 10));
    }
}

/// A base URL from the arguments outranks the file's in standalone mode, and is refused
/// in integrated mode, where the file's never matters.
pub proof fn law_base_url_precedence(
    serve: ServeCommand,
    base: Seq<char>,
    file: Option<Seq<char>>,
    other: Option<Seq<char>>,
)
    ensures
        launch_plan(None, Some(base), file) == Ok::<(Seq<char>, Option<Seq<Seq<char>>>), Seq<char>>((base, None)),
        launch_plan(None, None, Some(base)) == Ok::<(Seq<char>, Option<Seq<Seq<char>>>), Seq<char>>((base, None)),
        launch_plan(None, None, None) is Err,
        launch_plan(Some(serve), Some(base), file) is Err,
        launch_plan(Some(serve), None, file) == launch_plan(Some(serve), None, other),
        launch_plan(Some(serve), None, file) is Ok,
{
}

/// A number is written in decimal digits that stand for it, without a leading zero.
pub proof fn law_numbers_are_written_in_decimal(number: u16, digits: String)
    requires
        call_ensures(decimal_text, (number,), digits),
    ensures
        text::unsigned_value(digits@) == Some(number as nat),
        digits@.len() > 1 ==> digits@[0] != '0',
        '0' <= digits@[0] <= '9',
        digits@.len() > 0,
{
    law_decimal_digits_stand_for_the_number(number as nat);
    lemma_decimal(number as nat);
    lemma_no_leading_zero(number as nat);
}

proof fn lemma_no_leading_zero(number: nat)
    ensures
        number > 0 ==> decimal(number)[0] != '0',
        number < 10 ==> decimal(number).len() == 1,
    decreases number,
{
    if number >= 10 {
        lemma_no_leading_zero(number / 10);
        lemma_decimal(number / 10);
        assert(decimal(number)[0] == decimal(number / 10)[0]);
    }
}

/// Standalone mode starts nothing and takes the argument's base URL, or else the file's;
/// without either it is refused.
pub proof fn law_standalone_mode_takes_a_base_url(
    argument: Option<String>,
    file: Option<String>,
    r: Result<Launch, Error>,
)
    requires
        call_ensures(plan_launch, (None, argument, file), r),
    ensures
        r matches Ok(launch) ==> launch.llm_args is None && match argument {
            Some(base) => launch.llm_api_base@ == base@,
            None => file is Some && launch.llm_api_base@ == file->Some_0@,
        },
        r is Ok <==> argument is Some || file is Some,
        r matches Err(error) ==> error@
            == "standalone mode requires llm_api_base in config.toml, LLM_API_BASE, or --llm-api-base; use `agentic-server serve <model>` for integrated mode"@,
{
}

/// Integrated mode refuses a base URL and else starts the model that was asked for on the
/// port that was asked for, with every further argument behind in its order, and talks to
/// that port of this machine.
pub proof fn law_integrated_mode_starts_the_model(
    serve: ServeCommand,
    argument: Option<String>,
    file: Option<String>,
    r: Result<Launch, Error>,
)
    requires
        call_ensures(plan_launch, (Some(serve), argument, file), r),
    ensures
        r is Ok <==> argument is None,
        r matches Ok(launch) ==> (launch.llm_args matches Some(args) && {
            &&& args@.len() == 4 + serve.llm_args@.len()
            &&& args@[0]@ == "--model"@
            &&& args@[1]@ == serve.model@
            &&& args@[2]@ == "--port"@
            &&& text::unsigned_value(args@[3]@) == Some(serve.port as nat)
            &&& forall|i: int| 0 <= i < serve.llm_args@.len() ==> (#[trigger] serve.llm_args@[i])@ == args@[i + 4]@
            &&& launch.llm_api_base@ == "http://127.0.0.1:"@ + args@[3]@
        }),
        r matches Err(error) ==> error@
            == "--llm-api-base is only valid in standalone mode; remove it when using `serve`"@,
{
    law_decimal_digits_stand_for_the_number(serve.port as nat);
    if let Ok(launch) = r {
        let args = launch.llm_args->Some_0;
        let fixed = seq!["--model"@, serve.model@, "--port"@, decimal(serve.port as nat)];
        let listed = fixed + text::texts(serve.llm_args@);
        assert(text::texts(args@) == listed);
        assert(args@.len() == listed.len());
        assert(args@[0]@ == text::texts(args@)[0]);
        assert(args@[1]@ == text::texts(args@)[1]);
        assert(args@[2]@ == text::texts(args@)[2]);
        assert(args@[3]@ == text::texts(args@)[3]);
        assert forall|i: int| 0 <= i < serve.llm_args@.len() implies (#[trigger] serve.llm_args@[i])@ == args@[i + 4]@ by {
            assert(listed[i + 4] == text::texts(serve.llm_args@)[i]);
            assert(text::texts(args@)[i + 4] == args@[i + 4]@);
        }
    }
}

} // verus!
