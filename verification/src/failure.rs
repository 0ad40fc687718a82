//! How a failed assertion is raised under each build configuration.
//!
//! An optimized build must not get as far as a program: the failure is an
//! instruction that no assembler accepts or, where inline assembly cannot be
//! used, a call of a symbol that no object file defines. An unoptimized
//! build cannot tell a failed assertion from one that the optimizer would
//! have removed, so there the failure is a panic when the code runs.

use crate::error::{Error, ErrorView};
use crate::expand::{lookup_view, names_identifier, owned_view, resolve, ExpansionView, Origin};
use crate::grammar::{DefaultId, EnvId, EnvIdView};
use vstd::prelude::*;
use vstd::string::*;

verus! {

/// The profile that the crate is built under.
#[derive(Clone, Copy, Debug, PartialEq, Eq, Structural)]
pub enum Profile {
    Debug,
    Release,
}

/// A build configuration.
#[derive(Clone, Copy, Debug, PartialEq, Eq, Structural)]
pub struct Build {
    pub profile: Profile,
    /// Whether inline assembly is to be avoided.
    pub no_asm: bool,
}

/// A place in the source.
#[derive(Debug, PartialEq, Eq)]
pub struct Site {
    pub file: String,
    pub line: u32,
    pub column: u32,
}

/// What a `Site` holds, as mathematical values.
pub struct SiteView {
    pub file: Seq<char>,
    pub line: nat,
    pub column: nat,
}

impl View for Site {
    type V = SiteView;

    open spec fn view(&self) -> SiteView {
        SiteView { file: self.file@, line: self.line as nat, column: self.column as nat }
    }
}

/// The way a failure is raised.
#[derive(Debug, PartialEq, Eq)]
pub enum Failure {
    /// A panic with this message, when the code runs.
    Panic(String),
    /// This text in place of an instruction: the assembler stops on it.
    Assembly(String),
    /// A call of this symbol, which nothing defines: the linker stops on it.
    Link(String),
}

/// What a `Failure` holds, as mathematical values.
pub enum FailureView {
    Panic(Seq<char>),
    Assembly(Seq<char>),
    Link(Seq<char>),
}

impl View for Failure {
    type V = FailureView;

    open spec fn view(&self) -> FailureView {
        match *self {
            Failure::Panic(m) => FailureView::Panic(m@),
            Failure::Assembly(t) => FailureView::Assembly(t@),
            Failure::Link(s) => FailureView::Link(s@),
        }
    }
}

/// The character of a decimal digit.
pub open spec fn digit(d: nat) -> char {
    if d == 0 {
        '0'
    } else if d == 1 {
        '1'
    } else if d == 2 {
        '2'
    } else if d == 3 {
        '3'
    } else if d == 4 {
        '4'
    } else if d == 5 {
        '5'
    } else if d == 6 {
        '6'
    } else if d == 7 {
        '7'
    } else if d == 8 {
        '8'
    } else {
        '9'
    }
}

/// A number in decimal, without leading zeros.
pub open spec fn decimal(n: nat) -> Seq<char>
    decreases n,
{
    if n < 10 {
        seq![digit(n)]
    } else {
        decimal(n / 10).push(digit(n % 10))
    }
}

/// The number that a decimal digit stands for; 0 for any other character.
pub open spec fn digit_value(c: char) -> nat {
    if c == '1' {
        1
    } else if c == '2' {
        2
    } else if c == '3' {
        3
    } else if c == '4' {
        4
    } else if c == '5' {
        5
    } else if c == '6' {
        6
    } else if c == '7' {
        7
    } else if c == '8' {
        8
    } else if c == '9' {
        9
    } else {
        0
    }
}

/// The number that a sequence of decimal digits stands for.
pub open spec fn decimal_value(text: Seq<char>) -> nat
    decreases text.len(),
{
    if text.len() == 0 {
        0
    } else {
        10 * decimal_value(text.drop_last()) + digit_value(text.last())
    }
}

/// The decimal form of a number reads back as that number, is never empty,
/// and begins with `0` only for the number 0.
pub proof fn lemma_decimal_reads_back(n: nat)
    ensures
        decimal_value(decimal(n)) == n,
        decimal(n).len() >= 1,
        n > 0 ==> decimal(n)[0] != '0',
    decreases n,
{
    if n < 10 {
        assert(decimal(n).drop_last() =~= Seq::<char>::empty());
        assert(decimal_value(decimal(n).drop_last()) == 0);
        assert(decimal(n).last() == digit(n));
        assert(digit_value(digit(n)) == n);
    } else {
        lemma_decimal_reads_back(n / 10);
        assert(decimal(n).drop_last() =~= decimal(n / 10));
        assert(decimal(n).last() == digit(n % 10));
        assert(digit_value(digit(n % 10)) == n % 10);
        assert(decimal(n)[0] == decimal(n / 10)[0]);
    }
}

/// The text that stands in place of an instruction.
pub open spec fn assembly_text(site: SiteView) -> Seq<char> {
    "build error at "@ + site.file + ":"@ + decimal(site.line) + ":"@ + decimal(site.column)
}

/// The name of the variable that names the symbol to call.
pub open spec fn symbol_variable() -> Seq<char> {
    "BUILD_ERROR_SYM"@
}

/// The symbol to call where the variable names none.
pub open spec fn default_symbol() -> Seq<char> {
    "__build_error_impl"@
}

/// The invocation that names the symbol to call.
pub open spec fn symbol_source() -> EnvIdView {
    EnvIdView { name: symbol_variable(), default_id: Some(default_symbol()), apply_to: None }
}

/// The symbol to call, where reading the variable gave `value` and the
/// lexer read `spelling` in it: the value, which must be an identifier, or
/// the default where there is no value.
pub open spec fn link_symbol(value: Result<Seq<char>, Seq<char>>, spelling: Option<Seq<char>>)
    -> Result<Seq<char>, ErrorView> {
    match value {
        Ok(v) => if names_identifier(v, spelling) {
            Ok(v)
        } else {
            Err(ErrorView::Value(v))
        },
        Err(_) => Ok(default_symbol()),
    }
}

/// The way a failure with diagnostic `message` at `site` is raised under
/// `build`, where `symbol` is the symbol to call.
pub open spec fn raised(build: Build, message: Seq<char>, site: SiteView, symbol: Seq<char>)
    -> FailureView {
    match build.profile {
        Profile::Debug => FailureView::Panic(message),
        Profile::Release => if build.no_asm {
            FailureView::Link(symbol)
        } else {
            FailureView::Assembly(assembly_text(site))
        },
    }
}

/// The symbol to call is the identifier that the invocation
/// `"BUILD_ERROR_SYM" ?: __build_error_impl` expands to, and that invocation
/// is refused only for a value that is no identifier.
pub proof fn lemma_symbol_is_expansion(
    value: Result<Seq<char>, Seq<char>>,
    spelling: Option<Seq<char>>,
)
    ensures
        match resolve(symbol_source(), value, spelling) {
            Ok(e) => link_symbol(value, spelling) == Ok::<Seq<char>, ErrorView>(e.ident)
                && e.apply_to is None,
            Err(e) => link_symbol(value, spelling) == Err::<Seq<char>, ErrorView>(e),
        },
        link_symbol(value, spelling) is Err <==> (value is Ok && !names_identifier(
            value->Ok_0,
            spelling,
        )),
{
}

/// Only an unoptimized build raises a failure by a panic, and it raises
/// every failure so.
pub proof fn lemma_panic_only_in_debug(
    build: Build,
    message: Seq<char>,
    site: SiteView,
    symbol: Seq<char>,
)
    ensures
        raised(build, message, site, symbol) is Panic <==> build.profile is Debug,
        build.profile is Debug ==> raised(build, message, site, symbol) == FailureView::Panic(
            message,
        ),
{
}

/// The profile that goes by `name`, if any.
pub open spec fn profile_named(name: Seq<char>) -> Option<Profile> {
    if name == "debug"@ {
        Some(Profile::Debug)
    } else if name == "release"@ {
        Some(Profile::Release)
    } else {
        None
    }
}

/// The name that a profile goes by.
pub open spec fn profile_name(profile: Profile) -> Seq<char> {
    match profile {
        Profile::Debug => "debug"@,
        Profile::Release => "release"@,
    }
}

/// Each profile is found again by its name.
pub proof fn lemma_profile_names(profile: Profile)
    ensures
        profile_named(profile_name(profile)) == Some(profile),
{
    reveal_strlit("debug");
    reveal_strlit("release");
    assert("debug"@.len() == 5);
    assert("release"@.len() == 7);
}

impl Profile {
    /// The profile that goes by `name`: `debug` or `release`. Under any
    /// other name no way of raising a failure is defined.
    pub fn from_name(name: &str) -> (profile: Option<Profile>)
        ensures
            profile == profile_named(name@),
    {
        let name = name.to_owned();
        if name == "debug".to_owned() {
            Some(Profile::Debug)
        } else if name == "release".to_owned() {
            Some(Profile::Release)
        } else {
            None
        }
    }

    /// The name that the profile goes by.
    pub fn name(self) -> (name: &'static str)
        ensures
            name@ == profile_name(self),
    {
        match self {
            Profile::Debug => "debug",
            Profile::Release => "release",
        }
    }
}

/// The text of one decimal digit.
fn digit_text(d: u32) -> (text: &'static str)
    requires
        d < 10,
    ensures
        text@ == seq![digit(d as nat)],
{
    proof {
        reveal_strlit("0");
        reveal_strlit("1");
        reveal_strlit("2");
        reveal_strlit("3");
        reveal_strlit("4");
        reveal_strlit("5");
        reveal_strlit("6");
        reveal_strlit("7");
        reveal_strlit("8");
        reveal_strlit("9");
    }
    let text = if d == 0 {
        "0"
    } else if d == 1 {
        "1"
    } else if d == 2 {
        "2"
    } else if d == 3 {
        "3"
    } else if d == 4 {
        "4"
    } else if d == 5 {
        "5"
    } else if d == 6 {
        "6"
    } else if d == 7 {
        "7"
    } else if d == 8 {
        "8"
    } else {
        "9"
    };
    assert(text@ =~= seq![digit(d as nat)]);
    text
}

/// Writes a number in decimal.
pub fn to_decimal(n: u32) -> (text: String)
    ensures
        text@ == decimal(n as nat),
    decreases n,
{
    if n < 10 {
        digit_text(n).to_owned()
    } else {
        let mut text = to_decimal(n / 10);
        text.append(digit_text(n % 10));
        text
    }
}

impl Site {
    /// The text that stands in place of an instruction for a failure at this
    /// place.
    pub fn assembly_text(&self) -> (text: String)
        ensures
            text@ == assembly_text(self@),
    {
        let mut text = "build error at ".to_owned();
        text.append(self.file.as_str());
        text.append(":");
        text.append(to_decimal(self.line).as_str());
        text.append(":");
        text.append(to_decimal(self.column).as_str());
        text
    }
}

/// The invocation that names the symbol to call: the variable
/// `BUILD_ERROR_SYM`, with `__build_error_impl` as the default.
pub fn symbol_invocation() -> (env_id: EnvId)
    ensures
        env_id@ == symbol_source(),
{
    EnvId {
        name: "BUILD_ERROR_SYM".to_owned(),
        default_id: Some(DefaultId { ident: "__build_error_impl".to_owned() }),
        apply_to: None,
    }
}

/// The symbol to call, given the outcome of reading `BUILD_ERROR_SYM` and
/// the lexer's word on the value: the value, or `__build_error_impl` where
/// there is none. A value that is no identifier is refused.
pub fn build_error_symbol(value: Result<String, String>, spelling: Option<String>) -> (r: Result<
    String,
    Error,
>)
    ensures
        match r {
            Ok(symbol) => link_symbol(lookup_view(value), owned_view(spelling)) == Ok::<
                Seq<char>,
                ErrorView,
            >(symbol@),
            Err(e) => link_symbol(lookup_view(value), owned_view(spelling)) == Err::<
                Seq<char>,
                ErrorView,
            >(e@),
        },
{
    match symbol_invocation().resolve(value, spelling) {
        Ok(expansion) => Ok(expansion.ident),
        Err(e) => Err(e),
    }
}

/// Decides how a failure with diagnostic `message` at `site` is raised under
/// `build`, where `symbol` is the symbol to call.
pub fn build_error(build: Build, message: &str, site: &Site, symbol: &str) -> (failure: Failure)
    ensures
        failure@ == raised(build, message@, site@, symbol@),
{
    match build.profile {
        Profile::Debug => Failure::Panic(message.to_owned()),
        Profile::Release => {
            if build.no_asm {
                Failure::Link(symbol.to_owned())
            } else {
                Failure::Assembly(site.assembly_text())
            }
        },
    }
}

} // verus!
