//! What the model sees of a tool result, and how tool failures are recognised.
use crate::text::{
    chars_of, contains, decimal, decimal_text, first_chars, has_text, lowercase, lowered, occurs_at,
    take_chars, text_of, trim, trimmed,
};
use vstd::prelude::*;
use vstd::string::*;

verus! {

/// The most characters of a tool result that the model sees.
pub const MODEL_TOOL_RESULT_MAX_CHARS: usize = 12_000;

/// The most characters of the structured details of a tool result that the model sees.
pub const MODEL_TOOL_DETAILS_MAX_CHARS: usize = 3_000;

/// A JSON text that is passed on as it is.
#[derive(Clone, Debug, PartialEq, Eq)]
pub struct SerializedJson {
    pub text: String,
}

impl SerializedJson {
    /// Wraps a JSON text.
    pub fn new(text: &str) -> (r: Self)
        ensures
            r.text@ == text@,
    {
        SerializedJson { text: text.to_owned() }
    }

    /// The JSON text.
    pub fn as_str(&self) -> (r: &str)
        ensures
            r@ == self.text@,
    {
        self.text.as_str()
    }
}

// ---------------------------------------------------------------------------------------------
// Truncation
// ---------------------------------------------------------------------------------------------
/// What stands in place of the characters that were left out.
pub open spec fn truncation_marker(excess: nat) -> Seq<char> {
    "\n...[truncated "@ + decimal_text(excess) + " characters]...\n"@
}

/// How many characters of the text stand around a marker of the given length.
pub open spec fn kept_chars(limit: nat, marker: nat) -> nat {
    if limit > marker {
        (limit - marker) as nat
    } else {
        0
    }
}

/// How many of the kept characters come from the start of the text: two thirds.
pub open spec fn kept_head(kept: nat) -> nat {
    (if 2 * kept <= usize::MAX {
        2 * kept
    } else {
        usize::MAX as nat
    }) / 3
}

/// A text cut down for the model: as it is where it fits the limit, its start alone where the
/// limit is too small for a marker, else its start and its end around a marker.
pub open spec fn truncated(value: Seq<char>, limit: nat) -> Seq<char> {
    if value.len() <= limit {
        value
    } else if limit < 32 {
        value.take(limit as int)
    } else {
        let marker = truncation_marker((value.len() - limit) as nat);
        let kept = kept_chars(limit, marker.len());
        let head = kept_head(kept);
        let tail = kept - head;
        value.take(head as int) + marker + value.skip(value.len() - tail)
    }
}

/// Cuts a text down for the model.
pub fn truncate_for_model(value: &str, limit: usize) -> (r: String)
    ensures
        r@ == truncated(value@, limit as nat),
        value@.len() <= usize::MAX,
{
    let chars = chars_of(value);
    let character_count: usize = chars.len();
    if character_count <= limit {
        return value.to_owned();
    }
    if limit < 32 {
        return text_of(&chars, 0, limit);
    }
    let mut marker = String::from_str("\n...[truncated ");
    marker.append(decimal((character_count - limit) as u64).as_str());
    marker.append(" characters]...\n");
    let marker_count: usize = marker.as_str().unicode_len();
    let available: usize = if limit > marker_count {
        limit - marker_count
    } else {
        0
    };
    let doubled: usize = if available <= usize::MAX / 2 {
        available * 2
    } else {
        usize::MAX
    };
    let head_count: usize = doubled / 3;
    let tail_count: usize = available - head_count;
    let mut out = text_of(&chars, 0, head_count);
    out.append(marker.as_str());
    out.append(text_of(&chars, character_count - tail_count, character_count).as_str());
    proof {
        assert(value@.subrange(0, head_count as int) =~= value@.take(head_count as int));
        assert(value@.subrange(character_count - tail_count, character_count as int)
            =~= value@.skip(character_count - tail_count));
    }
    out
}

/// Powers of ten.
spec fn ten_to(k: nat) -> nat
    decreases k,
{
    if k == 0 {
        1
    } else {
        10 * ten_to((k - 1) as nat)
    }
}

proof fn lemma_numeral_length(n: nat, k: nat)
    requires
        k > 0,
        n < ten_to(k),
    ensures
        1 <= decimal_text(n).len() <= k,
    decreases k,
{
    if n >= 10 {
        if k == 1 {
            reveal_with_fuel(ten_to, 2);
        }
        lemma_numeral_length(n / 10, (k - 1) as nat);
    }
}

/// The marker for any number of characters that a machine can count.
proof fn lemma_marker_length(excess: nat)
    requires
        excess <= usize::MAX,
    ensures
        32 <= truncation_marker(excess).len() <= 51,
{
    reveal_with_fuel(ten_to, 21);
    assert(ten_to(20) == 100_000_000_000_000_000_000);
    lemma_numeral_length(excess, 20);
    reveal_strlit("\n...[truncated ");
    reveal_strlit(" characters]...\n");
}

/// A text that does not fit is cut down to exactly the limit, unless the limit is so small that
/// the marker alone is longer.
pub proof fn truncated_fits(value: Seq<char>, limit: nat)
    requires
        value.len() > limit,
        limit < 32 || truncation_marker((value.len() - limit) as nat).len() <= limit,
    ensures
        truncated(value, limit).len() == limit,
{
}

/// A limit of at least 51 characters is never exceeded.
pub proof fn truncated_is_bounded(value: Seq<char>, limit: nat)
    requires
        value.len() <= usize::MAX,
        limit < 32 || limit >= 51,
    ensures
        truncated(value, limit).len() <= limit,
{
    if value.len() > limit && limit >= 32 {
        lemma_marker_length((value.len() - limit) as nat);
    }
}

/// How many characters of the start of a text survive when it is cut down.
pub open spec fn surviving_head(value: Seq<char>, limit: nat) -> nat {
    kept_head(kept_chars(limit, truncation_marker((value.len() - limit) as nat).len()))
}

/// How many characters of the end of a text survive when it is cut down.
pub open spec fn surviving_tail(value: Seq<char>, limit: nat) -> nat {
    let kept = kept_chars(limit, truncation_marker((value.len() - limit) as nat).len());
    (kept - kept_head(kept)) as nat
}

/// A text that is cut down around a marker keeps its first and its last characters.
pub proof fn truncated_keeps_both_ends(value: Seq<char>, limit: nat, head: nat, tail: nat)
    requires
        32 <= limit < value.len(),
        head <= surviving_head(value, limit),
        tail <= surviving_tail(value, limit),
    ensures
        value.take(head as int).is_prefix_of(truncated(value, limit)),
        value.skip(value.len() - tail).is_suffix_of(truncated(value, limit)),
{
    let cut = truncated(value, limit);
    assert(value.take(head as int) =~= cut.subrange(0, head as int));
    assert(value.skip(value.len() - tail) =~= cut.subrange(cut.len() - tail, cut.len() as int));
}

// ---------------------------------------------------------------------------------------------
// Failures
// ---------------------------------------------------------------------------------------------
/// Whether an error text tells of a capability that is gone for good.
pub open spec fn is_fatal(content: Seq<char>) -> bool {
    let normalized = lowered(content);
    ||| has_text(normalized, "broken pipe"@)
    ||| has_text(normalized, "mcp protocol error"@)
    ||| has_text(normalized, "mcp child exited"@)
    ||| has_text(normalized, "not connected (state: disconnected)"@)
    ||| has_text(normalized, "invalid json"@)
}

/// Whether an error text tells of a capability that is gone for good.
pub fn tool_error_is_fatal(content: &str) -> (r: bool)
    ensures
        r == is_fatal(content@),
{
    let normalized = lowercase(content);
    let text = normalized.as_str();
    contains(text, "broken pipe") || contains(text, "mcp protocol error") || contains(
        text,
        "mcp child exited",
    ) || contains(text, "not connected (state: disconnected)") || contains(text, "invalid json")
}

/// What failures are told apart by: the first known phrase of an error text, or else the start
/// of the text itself, without the white space around it and in lower case.
pub open spec fn failure_signature(content: Seq<char>) -> Seq<char> {
    let normalized = lowered(trimmed(content));
    if has_text(normalized, "broken pipe"@) {
        "broken pipe"@
    } else if has_text(normalized, "mcp protocol error"@) {
        "mcp protocol error"@
    } else if has_text(normalized, "mcp child exited"@) {
        "mcp child exited"@
    } else if has_text(normalized, "not connected"@) {
        "not connected"@
    } else if has_text(normalized, "invalid json"@) {
        "invalid json"@
    } else if has_text(normalized, "waitforconnection timed out"@) {
        "waitforconnection timed out"@
    } else if has_text(normalized, "game state not ready within timeout"@) {
        "game state not ready within timeout"@
    } else if has_text(normalized, "operation aborted"@) {
        "operation aborted"@
    } else {
        first_chars(normalized, 240)
    }
}

/// What failures are told apart by.
pub fn tool_failure_signature(content: &str) -> (r: String)
    ensures
        r@ == failure_signature(content@),
{
    let normalized = lowercase(trim(content).as_str());
    let text = normalized.as_str();
    if contains(text, "broken pipe") {
        String::from_str("broken pipe")
    } else if contains(text, "mcp protocol error") {
        String::from_str("mcp protocol error")
    } else if contains(text, "mcp child exited") {
        String::from_str("mcp child exited")
    } else if contains(text, "not connected") {
        String::from_str("not connected")
    } else if contains(text, "invalid json") {
        String::from_str("invalid json")
    } else if contains(text, "waitforconnection timed out") {
        String::from_str("waitforconnection timed out")
    } else if contains(text, "game state not ready within timeout") {
        String::from_str("game state not ready within timeout")
    } else if contains(text, "operation aborted") {
        String::from_str("operation aborted")
    } else {
        take_chars(text, 240)
    }
}

// ---------------------------------------------------------------------------------------------
// Projection
// ---------------------------------------------------------------------------------------------
/// The first line of a projected tool result.
pub open spec fn result_heading(tool_name: Seq<char>, is_error: bool) -> Seq<char> {
    "["@ + tool_name + " result: "@ + (if is_error {
        "error"@
    } else {
        "ok"@
    }) + "]\n"@
}

/// The content part of a projected tool result.
pub open spec fn result_body(content: Seq<char>, is_error: bool) -> Seq<char> {
    if content.len() == 0 {
        "(empty result)"@
    } else {
        truncated(
            content,
            if is_error {
                (MODEL_TOOL_RESULT_MAX_CHARS - MODEL_TOOL_DETAILS_MAX_CHARS) as nat
            } else {
                MODEL_TOOL_RESULT_MAX_CHARS as nat
            },
        )
    }
}

/// The details part of a projected tool result.
pub open spec fn result_details(details: Option<Seq<char>>) -> Seq<char> {
    match details {
        Some(details) => "\n[structured details]\n"@ + truncated(
            details,
            MODEL_TOOL_DETAILS_MAX_CHARS as nat,
        ),
        None => Seq::empty(),
    }
}

/// The notice that ends the projection of a fatal error.
pub open spec fn fatal_notice(content: Seq<char>, is_error: bool) -> Seq<char> {
    if is_error && is_fatal(content) {
        "\n[terminal capability error: do not retry this tool]"@
    } else {
        Seq::empty()
    }
}

/// A tool result before it is cut down to the overall limit.
pub open spec fn full_projection(
    tool_name: Seq<char>,
    content: Seq<char>,
    details: Option<Seq<char>>,
    is_error: bool,
) -> Seq<char> {
    result_heading(tool_name, is_error) + result_body(content, is_error) + result_details(details)
        + fatal_notice(content, is_error)
}

/// What the model sees of a tool result.
pub open spec fn projection(
    tool_name: Seq<char>,
    content: Seq<char>,
    details: Option<Seq<char>>,
    is_error: bool,
) -> Seq<char> {
    truncated(
        full_projection(tool_name, content, details, is_error),
        MODEL_TOOL_RESULT_MAX_CHARS as nat,
    )
}

/// The text of details that may be absent.
pub open spec fn details_text(details: Option<&SerializedJson>) -> Option<Seq<char>> {
    match details {
        Some(details) => Some(details.text@),
        None => None,
    }
}

/// Projects a tool result for the model: a heading, the content, the structured details and a
/// notice where the error is fatal, within the limit on the length of a result.
pub fn curate_tool_result(
    tool_name: &str,
    content: &str,
    details: Option<&SerializedJson>,
    is_error: bool,
) -> (r: String)
    ensures
        r@ == projection(tool_name@, content@, details_text(details), is_error),
        r@.len() <= MODEL_TOOL_RESULT_MAX_CHARS,
{
    let status = if is_error {
        "error"
    } else {
        "ok"
    };
    let content_limit: usize = if is_error {
        MODEL_TOOL_RESULT_MAX_CHARS - MODEL_TOOL_DETAILS_MAX_CHARS
    } else {
        MODEL_TOOL_RESULT_MAX_CHARS
    };
    let mut output = String::from_str("[");
    output.append(tool_name);
    output.append(" result: ");
    output.append(status);
    output.append("]\n");
    if content.is_empty() {
        output.append("(empty result)");
    } else {
        output.append(truncate_for_model(content, content_limit).as_str());
    }
    let ghost with_content = output@;
    if let Some(details) = details {
        output.append("\n[structured details]\n");
        output.append(truncate_for_model(details.as_str(), MODEL_TOOL_DETAILS_MAX_CHARS).as_str());
    }
    assert(output@ =~= with_content + result_details(details_text(details)));
    let ghost with_details = output@;
    if is_error && tool_error_is_fatal(content) {
        output.append("\n[terminal capability error: do not retry this tool]");
    }
    assert(output@ =~= with_details + fatal_notice(content@, is_error));
    let shown = truncate_for_model(output.as_str(), MODEL_TOOL_RESULT_MAX_CHARS);
    proof {
        truncated_is_bounded(output@, MODEL_TOOL_RESULT_MAX_CHARS as nat);
    }
    shown
}

/// The projection of a fatal error ends with the notice not to retry, however long the error.
pub proof fn fatal_errors_are_announced(
    tool_name: Seq<char>,
    content: Seq<char>,
    details: Option<Seq<char>>,
)
    requires
        is_fatal(content),
        full_projection(tool_name, content, details, true).len() <= usize::MAX,
    ensures
        "\n[terminal capability error: do not retry this tool]"@.is_suffix_of(
            projection(tool_name, content, details, true),
        ),
{
    let full = full_projection(tool_name, content, details, true);
    let notice = "\n[terminal capability error: do not retry this tool]"@;
    reveal_strlit("\n[terminal capability error: do not retry this tool]");
    let n = notice.len();
    assert(full.skip(full.len() - n) =~= notice);
    if full.len() > MODEL_TOOL_RESULT_MAX_CHARS {
        lemma_marker_length((full.len() - MODEL_TOOL_RESULT_MAX_CHARS) as nat);
        truncated_keeps_both_ends(full, MODEL_TOOL_RESULT_MAX_CHARS as nat, 0, n);
    } else {
        assert(notice =~= full.subrange(full.len() - n, full.len() as int));
    }
}

/// The projection begins with the heading that names the tool and its status, unless the name
/// of the tool is so long that it is cut itself.
pub proof fn projections_name_the_tool(
    tool_name: Seq<char>,
    content: Seq<char>,
    details: Option<Seq<char>>,
    is_error: bool,
)
    requires
        full_projection(tool_name, content, details, is_error).len() > MODEL_TOOL_RESULT_MAX_CHARS
            ==> result_heading(tool_name, is_error).len() <= surviving_head(
            full_projection(tool_name, content, details, is_error),
            MODEL_TOOL_RESULT_MAX_CHARS as nat,
        ),
    ensures
        result_heading(tool_name, is_error).is_prefix_of(
            projection(tool_name, content, details, is_error),
        ),
{
    let full = full_projection(tool_name, content, details, is_error);
    let heading = result_heading(tool_name, is_error);
    let n = heading.len();
    assert(full.take(n as int) =~= heading);
    if full.len() > MODEL_TOOL_RESULT_MAX_CHARS {
        truncated_keeps_both_ends(full, MODEL_TOOL_RESULT_MAX_CHARS as nat, n, 0);
    } else {
        assert(heading =~= full.subrange(0, n as int));
    }
}

// ---------------------------------------------------------------------------------------------
// What the model is shown
// ---------------------------------------------------------------------------------------------
/// A text within its limit is shown as it is, and with a limit that is too small for a remark
/// exactly its start is shown.
pub proof fn short_texts_are_not_truncated(value: Seq<char>, limit: nat)
    ensures
        value.len() <= limit ==> truncated(value, limit) == value,
        limit < 32 && limit < value.len() ==> truncated(value, limit) == value.take(limit as int),
{
}

/// Of a text beyond its limit the start and the end are shown, around a remark that tells by how
/// many characters the text exceeds the limit. Two thirds of what is shown come from the start.
/// Where the limit leaves room for the remark, what is shown fills it.
pub proof fn long_texts_show_both_ends(value: Seq<char>, limit: nat) -> (ends: (nat, nat))
    requires
        32 <= limit < value.len() <= usize::MAX,
    ensures
        ({
            let (head, tail) = ends;
            let remark = "\n...[truncated "@ + decimal_text((value.len() - limit) as nat)
                + " characters]...\n"@;
            let shown = head + tail;
            &&& truncated(value, limit) == value.take(head as int) + remark + value.skip(
                value.len() - tail,
            )
            &&& head + tail <= value.len()
            &&& shown == (if remark.len() <= limit {
                limit - remark.len()
            } else {
                0
            })
            &&& limit <= usize::MAX / 2 ==> 3 * head <= 2 * shown < 3 * head + 3
        }),
{
    let marker = truncation_marker((value.len() - limit) as nat);
    let kept = kept_chars(limit, marker.len());
    let head = kept_head(kept);
    assert(head <= kept);
    (head, (kept - head) as nat)
}

/// A result that fits is shown whole: under a heading that names the tool and its status, the
/// content, or a remark where there is none, comes as it is.
pub proof fn short_results_are_shown_whole(
    tool_name: Seq<char>,
    content: Seq<char>,
    is_error: bool,
)
    requires
        tool_name.len() + content.len() <= 8_900,
        !(is_error && is_fatal(content)),
    ensures
        projection(tool_name, content, None, is_error) == "["@ + tool_name + " result: "@ + (
        if is_error {
            "error"@
        } else {
            "ok"@
        }) + "]\n"@ + (if content.len() > 0 {
            content
        } else {
            "(empty result)"@
        }),
{
    reveal_strlit("[");
    reveal_strlit(" result: ");
    reveal_strlit("error");
    reveal_strlit("ok");
    reveal_strlit("]\n");
    reveal_strlit("(empty result)");
    let full = full_projection(tool_name, content, None, is_error);
    let whole = "["@ + tool_name + " result: "@ + (if is_error {
        "error"@
    } else {
        "ok"@
    }) + "]\n"@ + (if content.len() > 0 {
        content
    } else {
        "(empty result)"@
    });
    assert(full =~= whole);
}

/// The content of a success may fill the whole room of a result; that of an error leaves room for
/// its details, and is cut down to 9000 characters before.
pub proof fn long_contents_are_truncated(
    tool_name: Seq<char>,
    content: Seq<char>,
    is_error: bool,
)
    requires
        content.len() > 0,
        !(is_error && is_fatal(content)),
    ensures
        ({
            let whole = "["@ + tool_name + " result: "@ + (if is_error {
                "error"@
            } else {
                "ok"@
            }) + "]\n"@ + truncated(
                content,
                if is_error {
                    9_000
                } else {
                    12_000
                },
            );
            projection(tool_name, content, None, is_error) == truncated(whole, 12_000)
        }),
{
    let full = full_projection(tool_name, content, None, is_error);
    assert(full =~= result_heading(tool_name, is_error) + result_body(content, is_error));
}

/// Structured details are shown after everything else, whether the result is an error or not:
/// they add a heading and the details themselves, cut down to 3000 characters, to what is shown
/// without them, and take nothing away. Only the notice of a fatal error comes after them.
pub proof fn details_are_shown(
    tool_name: Seq<char>,
    content: Seq<char>,
    details: Seq<char>,
    is_error: bool,
)
    requires
        !(is_error && is_fatal(content)),
        projection(tool_name, content, None, is_error).len() + 22 + truncated(details, 3_000).len()
            <= 12_000,
    ensures
        projection(tool_name, content, Some(details), is_error) == projection(
            tool_name,
            content,
            None,
            is_error,
        ) + "\n[structured details]\n"@ + truncated(details, 3_000),
        details.len() <= 3_000 ==> ("\n[structured details]\n"@ + details).is_suffix_of(
            projection(tool_name, content, Some(details), is_error),
        ),
{
    reveal_strlit("\n[structured details]\n");
    let bare = full_projection(tool_name, content, None, is_error);
    let full = full_projection(tool_name, content, Some(details), is_error);
    lemma_short_projection(bare);
    assert(full =~= bare + "\n[structured details]\n"@ + truncated(details, 3_000));
    let shown = projection(tool_name, content, Some(details), is_error);
    if details.len() <= 3_000 {
        let end = "\n[structured details]\n"@ + details;
        assert(end =~= shown.subrange(shown.len() - end.len(), shown.len() as int));
    }
}

/// What is cut down to less than its limit was not cut down.
proof fn lemma_short_projection(full: Seq<char>)
    ensures
        truncated(full, 12_000).len() < 12_000 ==> truncated(full, 12_000) == full,
{
    if full.len() > 12_000 {
        let marker = truncation_marker((full.len() - 12_000) as nat);
        let kept = kept_chars(12_000, marker.len());
        assert(truncated(full, 12_000).len() >= 12_000);
    }
}

/// The notice of a fatal error adds to what is shown of the error, and takes nothing away; a
/// result that is no error, or no fatal one, has none.
pub proof fn notices_only_add(
    tool_name: Seq<char>,
    content: Seq<char>,
    details: Option<Seq<char>>,
)
    requires
        tool_name.len() + content.len() <= 5_000,
        details matches Some(details) ==> details.len() <= 3_000,
    ensures
        projection(tool_name, content, details, true) == "["@ + tool_name + " result: error]\n"@ + (
        if content.len() > 0 {
            content
        } else {
            "(empty result)"@
        }) + (match details {
            Some(details) => "\n[structured details]\n"@ + details,
            None => Seq::empty(),
        }) + (if is_fatal(content) {
            "\n[terminal capability error: do not retry this tool]"@
        } else {
            Seq::empty()
        }),
{
    reveal_strlit("[");
    reveal_strlit(" result: ");
    reveal_strlit("error");
    reveal_strlit("]\n");
    reveal_strlit(" result: error]\n");
    reveal_strlit("(empty result)");
    reveal_strlit("\n[structured details]\n");
    reveal_strlit("\n[terminal capability error: do not retry this tool]");
    let full = full_projection(tool_name, content, details, true);
    assert(" result: error]\n"@ =~= " result: "@ + "error"@ + "]\n"@);
    assert("["@ + tool_name + " result: error]\n"@ =~= result_heading(tool_name, true));
    assert(full.len() <= 12_000);
}

// ---------------------------------------------------------------------------------------------
// Which failures end a run
// ---------------------------------------------------------------------------------------------
/// An error that says one of five phrases anywhere, in any case of its letters, tells of a
/// capability that is gone for good.
pub proof fn five_phrases_are_fatal(
    before: Seq<char>,
    said: Seq<char>,
    after: Seq<char>,
)
    requires
        lowered(said) == "broken pipe"@ || lowered(said) == "mcp protocol error"@ || lowered(said)
            == "mcp child exited"@ || lowered(said) == "not connected (state: disconnected)"@
            || lowered(said) == "invalid json"@,
    ensures
        is_fatal(before + said + after),
{
    let content = before + said + after;
    let at = before.len() as int;
    let phrase = lowered(said);
    assert(lowered(content).subrange(at, at + phrase.len()) =~= phrase);
    assert(occurs_at(lowered(content), phrase, at));
}

/// No error without one of the five phrases is fatal: not one about a connection that timed out,
/// nor any other.
pub proof fn other_errors_are_not_fatal(content: Seq<char>)
    requires
        forall|phrase: Seq<char>, i: int|
            #[trigger] occurs_at(lowered(content), phrase, i) ==> phrase != "broken pipe"@ && phrase
                != "mcp protocol error"@ && phrase != "mcp child exited"@ && phrase
                != "not connected (state: disconnected)"@ && phrase != "invalid json"@,
    ensures
        !is_fatal(content),
{
}

/// Failures are told apart by the first of eight phrases that they hold, in any case of their
/// letters. A failure that holds none of them is told apart by its first 240 characters, in lower
/// case and without the white space around them.
pub proof fn failures_are_told_apart_by_their_phrase(content: Seq<char>, i: int)
    ensures
        ({
            let phrases = seq![
                "broken pipe"@,
                "mcp protocol error"@,
                "mcp child exited"@,
                "not connected"@,
                "invalid json"@,
                "waitforconnection timed out"@,
                "game state not ready within timeout"@,
                "operation aborted"@,
            ];
            let text = lowered(trimmed(content));
            &&& 0 <= i < 8 && has_text(text, phrases[i]) && (forall|j: int|
                0 <= j < i ==> !has_text(text, #[trigger] phrases[j])) ==> failure_signature(
                content,
            ) == phrases[i]
            &&& (forall|j: int| 0 <= j < 8 ==> !has_text(text, #[trigger] phrases[j])) ==> (
            failure_signature(content) == (if text.len() <= 240 {
                text
            } else {
                text.take(240)
            }))
        }),
{
    let phrases = seq![
        "broken pipe"@,
        "mcp protocol error"@,
        "mcp child exited"@,
        "not connected"@,
        "invalid json"@,
        "waitforconnection timed out"@,
        "game state not ready within timeout"@,
        "operation aborted"@,
    ];
    let text = lowered(trimmed(content));
    let known = seq![
        has_text(text, phrases[0]),
        has_text(text, phrases[1]),
        has_text(text, phrases[2]),
        has_text(text, phrases[3]),
        has_text(text, phrases[4]),
        has_text(text, phrases[5]),
        has_text(text, phrases[6]),
        has_text(text, phrases[7]),
    ];
    assert(i < 0 || i == 0 || i == 1 || i == 2 || i == 3 || i == 4 || i == 5 || i == 6 || i == 7
        || i > 7);
}

/// The case of its letters does not matter for whether an error is fatal, nor for what it is told
/// apart by.
pub proof fn the_case_of_errors_does_not_matter(a: Seq<char>, b: Seq<char>)
    requires
        lowered(a) == lowered(b),
    ensures
        is_fatal(a) == is_fatal(b),
        lowered(trimmed(a)) == lowered(trimmed(b)) ==> failure_signature(a) == failure_signature(b),
{
}

}
