//! Error values as ordered cause chains.
//!
//! Every failure the engine reports is an [`ErrorChain`]: a list of
//! human-readable messages ordered from the most general (outermost)
//! message to the most specific (innermost) cause.
use vstd::prelude::*;
use vstd::string::StringExecFns;

verus! {

/// An error as an ordered cause chain, outermost message first.
pub struct ErrorChain {
    pub messages: Vec<String>,
}

impl View for ErrorChain {
    type V = Seq<Seq<char>>;

    open spec fn view(&self) -> Seq<Seq<char>> {
        self.messages.deep_view()
    }
}

impl DeepView for ErrorChain {
    type V = Seq<Seq<char>>;

    open spec fn deep_view(&self) -> Seq<Seq<char>> {
        self.view()
    }
}

impl Clone for ErrorChain {
    fn clone(&self) -> (r: Self)
        ensures
            r@ == self@,
    {
        let messages = self.messages.clone();
        proof {
            assert forall|i: int| 0 <= i < self.messages@.len() implies messages@[i]
                == self.messages@[i] by {
                assert(cloned(self.messages[i], messages[i]));
            }
            assert(messages@ =~= self.messages@);
        }
        ErrorChain { messages }
    }
}

impl ErrorChain {
    /// A chain holding a single message.
    pub fn single(message: String) -> (r: ErrorChain)
        ensures
            r@ == seq![message@],
    {
        let mut messages: Vec<String> = Vec::new();
        messages.push(message);
        proof {
            assert(messages.deep_view() =~= seq![message@]);
        }
        ErrorChain { messages }
    }

    /// The number of messages in the chain.
    pub fn len(&self) -> (r: usize)
        ensures
            r == self@.len(),
    {
        self.messages.len()
    }
}

/// The decimal digits of `n`, most significant first.
pub open spec fn decimal_rep(n: nat) -> Seq<char>
    decreases n,
{
    if n < 10 {
        seq![digit_char(n)]
    } else {
        decimal_rep(n / 10).push(digit_char(n % 10))
    }
}

/// The character for one decimal digit.
pub open spec fn digit_char(d: nat) -> char {
    if d == 0 {
        '0'
    } else if d == 1 {
        '1'
    } else if d == 2 {
        '2'
    } else if d == 3 {
        '3'
    } else if d == 4 {
        '4'
    } else if d == 5 {
        '5'
    } else if d == 6 {
        '6'
    } else if d == 7 {
        '7'
    } else if d == 8 {
        '8'
    } else {
        '9'
    }
}

fn digit_str(d: u64) -> (r: &'static str)
    requires
        d < 10,
    ensures
        r@ == seq![digit_char(d as nat)],
{
    proof {
        reveal_strlit("0");
        reveal_strlit("1");
        reveal_strlit("2");
        reveal_strlit("3");
        reveal_strlit("4");
        reveal_strlit("5");
        reveal_strlit("6");
        reveal_strlit("7");
        reveal_strlit("8");
        reveal_strlit("9");
    }
    let r: &'static str = match d {
        0 => "0",
        1 => "1",
        2 => "2",
        3 => "3",
        4 => "4",
        5 => "5",
        6 => "6",
        7 => "7",
        8 => "8",
        _ => "9",
    };
    proof {
        assert(r@ =~= seq![digit_char(d as nat)]);
    }
    r
}

/// Renders `n` in decimal.
pub fn u64_to_decimal(n: u64) -> (r: String)
    ensures
        r@ == decimal_rep(n as nat),
    decreases n,
{
    if n < 10 {
        String::from_str(digit_str(n))
    } else {
        let mut s = u64_to_decimal(n / 10);
        s.append(digit_str(n % 10));
        proof {
            assert(s@ =~= decimal_rep(n as nat));
        }
        s
    }
}

/// The standard headline put at the innermost position of a reconstituted
/// parse failure.
pub open spec fn parse_error_headline() -> Seq<char> {
    "SQLPage could not parse and prepare this SQL statement"@
}

/// Reconstitutes a previously captured parse failure into a fresh error
/// value: the original cause chain is kept, outermost to innermost, and the
/// standard headline is appended as the innermost cause.
pub fn clone_anyhow_err(err: &ErrorChain) -> (r: ErrorChain)
    ensures
        r@ == err@.push(parse_error_headline()),
{
    let mut r = err.clone();
    proof {
        reveal_strlit("SQLPage could not parse and prepare this SQL statement");
    }
    r.messages.push(String::from_str(
        "SQLPage could not parse and prepare this SQL statement",
    ));
    proof {
        assert(r@ =~= err@.push(parse_error_headline()));
    }
    r
}

/// The cause chain wrapped around a failed statement: the headline, then
/// the offending SQL text, then the backend's native message.
pub open spec fn enriched_error(
    context: Seq<char>,
    query: Seq<char>,
    message: Seq<char>,
) -> Seq<Seq<char>> {
    seq![context, query, message]
}

/// Wraps a backend error with a short headline and the offending SQL text,
/// ordering the cause chain from the headline down to the native message.
pub fn highlight_sql_error(context: &str, query: &str, message: &str) -> (r: ErrorChain)
    ensures
        r@ == enriched_error(context@, query@, message@),
{
    let mut messages: Vec<String> = Vec::new();
    messages.push(String::from_str(context));
    messages.push(String::from_str(query));
    messages.push(String::from_str(message));
    proof {
        assert(messages.deep_view() =~= enriched_error(context@, query@, message@));
    }
    ErrorChain { messages }
}

/// The headline of a connection acquisition failure: it names the pool's
/// total capacity and the backend kind so exhaustion is diagnosable.
pub open spec fn acquisition_headline(pool_size: nat, backend_kind: Seq<char>) -> Seq<char> {
    "Unable to acquire a database connection to execute the SQL file. All of the "@
        + decimal_rep(pool_size) + " "@ + backend_kind + " connections are busy."@
}

/// The cause chain of a connection acquisition failure.
pub open spec fn acquisition_error_chain(
    pool_size: nat,
    backend_kind: Seq<char>,
    message: Seq<char>,
) -> Seq<Seq<char>> {
    seq![acquisition_headline(pool_size, backend_kind), message]
}

/// Builds the error reported when no pooled connection could be acquired.
pub fn acquisition_error(pool_size: u64, backend_kind: &str, message: &str) -> (r: ErrorChain)
    ensures
        r@ == acquisition_error_chain(pool_size as nat, backend_kind@, message@),
{
    let mut headline = String::from_str(
        "Unable to acquire a database connection to execute the SQL file. All of the ",
    );
    let n = u64_to_decimal(pool_size);
    headline.append(n.as_str());
    headline.append(" ");
    headline.append(backend_kind);
    headline.append(" connections are busy.");
    proof {
        assert(headline@ =~= acquisition_headline(pool_size as nat, backend_kind@));
    }
    let mut messages: Vec<String> = Vec::new();
    messages.push(headline);
    messages.push(String::from_str(message));
    proof {
        assert(messages.deep_view() =~= acquisition_error_chain(
            pool_size as nat,
            backend_kind@,
            message@,
        ));
    }
    ErrorChain { messages }
}

/// The headline of a parameter binding failure, citing the 1-based index
/// of the parameter that could not be resolved.
pub open spec fn binding_headline(index1: nat) -> Seq<char> {
    "Failed to extract the value of parameter "@ + decimal_rep(index1)
}

/// The cause chain of a parameter binding failure.
pub open spec fn binding_error_chain(index1: nat, cause: Seq<char>) -> Seq<Seq<char>> {
    seq![binding_headline(index1), cause]
}

/// Builds the error reported when the value of the parameter at 1-based
/// position `index1` could not be resolved.
pub fn binding_error(index1: u64, cause: &str) -> (r: ErrorChain)
    ensures
        r@ == binding_error_chain(index1 as nat, cause@),
{
    let mut headline = String::from_str("Failed to extract the value of parameter ");
    let n = u64_to_decimal(index1);
    headline.append(n.as_str());
    proof {
        assert(headline@ =~= binding_headline(index1 as nat));
    }
    let mut messages: Vec<String> = Vec::new();
    messages.push(headline);
    messages.push(String::from_str(cause));
    proof {
        assert(messages.deep_view() =~= binding_error_chain(index1 as nat, cause@));
    }
    ErrorChain { messages }
}

} // verus!
