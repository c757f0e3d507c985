//! Token usage.
use crate::text::{decimal, decimal_text};
use vstd::prelude::*;
use vstd::string::*;

verus! {

/// The tokens of one completion, or of several, as far as the provider reports them.
#[derive(Clone, Copy, Debug, PartialEq, Eq, Structural)]
pub struct Usage {
    pub input_tokens: Option<u64>,
    pub output_tokens: Option<u64>,
    pub reasoning_tokens: Option<u64>,
}

/// A reported number, or zero.
pub open spec fn or_zero(count: Option<u64>) -> nat {
    match count {
        Some(count) => count as nat,
        None => 0,
    }
}

/// The sum of two reports; what was not reported counts as zero.
pub open spec fn usage_sum(a: Usage, b: Usage) -> Usage {
    Usage {
        input_tokens: Some((or_zero(a.input_tokens) + or_zero(b.input_tokens)) as u64),
        output_tokens: Some((or_zero(a.output_tokens) + or_zero(b.output_tokens)) as u64),
        reasoning_tokens: Some((or_zero(a.reasoning_tokens) + or_zero(b.reasoning_tokens)) as u64),
    }
}

impl Default for Usage {
    fn default() -> (r: Self)
        ensures
            r == (Usage { input_tokens: None, output_tokens: None, reasoning_tokens: None }),
    {
        Usage { input_tokens: None, output_tokens: None, reasoning_tokens: None }
    }
}

/// The running totals of a run.
#[derive(Clone, Debug)]
pub struct UsageTotals {
    pub totals: Usage,
}

impl Default for UsageTotals {
    fn default() -> (r: Self)
        ensures
            r.totals == (Usage { input_tokens: None, output_tokens: None, reasoning_tokens: None }),
    {
        UsageTotals { totals: Usage::default() }
    }
}

impl UsageTotals {
    /// Whether the totals can take a usage in without an overflow.
    pub open spec fn fits(self, usage: Usage) -> bool {
        &&& or_zero(self.totals.input_tokens) + or_zero(usage.input_tokens) <= u64::MAX
        &&& or_zero(self.totals.output_tokens) + or_zero(usage.output_tokens) <= u64::MAX
        &&& or_zero(self.totals.reasoning_tokens) + or_zero(usage.reasoning_tokens) <= u64::MAX
    }

    /// Whether the totals can take a usage in without an overflow.
    pub fn has_room_for(&self, usage: Usage) -> (r: bool)
        ensures
            r == self.fits(usage),
    {
        self.totals.input_tokens.unwrap_or(0) <= u64::MAX - usage.input_tokens.unwrap_or(0)
            && self.totals.output_tokens.unwrap_or(0) <= u64::MAX - usage.output_tokens.unwrap_or(0)
            && self.totals.reasoning_tokens.unwrap_or(0) <= u64::MAX
            - usage.reasoning_tokens.unwrap_or(0)
    }

    /// Adds a usage to the totals. What was not reported counts as zero.
    pub fn add(&mut self, usage: Usage)
        requires
            old(self).fits(usage),
        ensures
            final(self).totals == usage_sum(old(self).totals, usage),
    {
        self.totals = Usage {
            input_tokens: Some(
                self.totals.input_tokens.unwrap_or(0) + usage.input_tokens.unwrap_or(0),
            ),
            output_tokens: Some(
                self.totals.output_tokens.unwrap_or(0) + usage.output_tokens.unwrap_or(0),
            ),
            reasoning_tokens: Some(
                self.totals.reasoning_tokens.unwrap_or(0) + usage.reasoning_tokens.unwrap_or(0),
            ),
        };
    }

    /// The totals so far.
    pub fn snapshot(&self) -> (r: Usage)
        ensures
            r == self.totals,
    {
        self.totals
    }
}

/// The totals do not depend on the order in which completions come in.
pub proof fn usage_order_does_not_matter(start: UsageTotals, a: Usage, b: Usage)
    requires
        start.fits(a),
        (UsageTotals { totals: usage_sum(start.totals, a) }).fits(b),
    ensures
        start.fits(b),
        (UsageTotals { totals: usage_sum(start.totals, b) }).fits(a),
        usage_sum(usage_sum(start.totals, a), b) == usage_sum(usage_sum(start.totals, b), a),
{
}

/// The line about the token usage of a run.
pub open spec fn usage_line(totals: Usage) -> Seq<char> {
    "[pi-agent-core] usage input="@ + decimal_text(or_zero(totals.input_tokens)) + " output="@
        + decimal_text(or_zero(totals.output_tokens)) + " reasoning="@ + decimal_text(
        or_zero(totals.reasoning_tokens),
    )
}

/// Writes the line about the token usage of a run.
pub fn usage_report(totals: Usage) -> (r: String)
    ensures
        r@ == usage_line(totals),
{
    let mut out = String::from_str("[pi-agent-core] usage input=");
    out.append(decimal(totals.input_tokens.unwrap_or(0)).as_str());
    out.append(" output=");
    out.append(decimal(totals.output_tokens.unwrap_or(0)).as_str());
    out.append(" reasoning=");
    out.append(decimal(totals.reasoning_tokens.unwrap_or(0)).as_str());
    out
}

/// Each number of the totals grows by the number of its own kind, and one that is not reported
/// leaves it as it is.
pub proof fn totals_grow_by_what_is_reported(start: UsageTotals, usage: Usage)
    requires
        start.fits(usage),
    ensures
        ({
            let sum = usage_sum(start.totals, usage);
            let count = |n: Option<u64>|
                match n {
                    Some(n) => n as int,
                    None => 0,
                };
            &&& sum.input_tokens is Some && count(sum.input_tokens) == count(
                start.totals.input_tokens,
            ) + count(usage.input_tokens)
            &&& sum.output_tokens is Some && count(sum.output_tokens) == count(
                start.totals.output_tokens,
            ) + count(usage.output_tokens)
            &&& sum.reasoning_tokens is Some && count(sum.reasoning_tokens) == count(
                start.totals.reasoning_tokens,
            ) + count(usage.reasoning_tokens)
        }),
{
}

/// The line about the usage tells all three totals, each under its name.
pub proof fn usage_lines_tell_the_totals(input: u64, output: u64, reasoning: u64)
    ensures
        usage_line(
            Usage {
                input_tokens: Some(input),
                output_tokens: Some(output),
                reasoning_tokens: Some(reasoning),
            },
        ) == "[pi-agent-core] usage input="@ + decimal_text(input as nat) + " output="@
            + decimal_text(output as nat) + " reasoning="@ + decimal_text(reasoning as nat),
        usage_line(
            Usage { input_tokens: None, output_tokens: None, reasoning_tokens: None },
        ) == usage_line(
            Usage {
                input_tokens: Some(0),
                output_tokens: Some(0),
                reasoning_tokens: Some(0),
            },
        ),
{
}

}
