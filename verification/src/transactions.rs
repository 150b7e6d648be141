//! The decisions of the batch submission and status protocol. Each request
//! is turned into an [`Exchange`]: the one call to make on the ledger, and
//! the rule by which the ledger's answer becomes the reply. Making the call
//! is the caller's business.

use crate::error::{FaultClass, TransactionError};
use crate::status::{BatchStatus, BatchStatusView, CommitStatus, all_committed};
use vstd::prelude::*;
use vstd::std_specs::iter::IteratorSpec;

verus! {

/// The query of a submission that waits for commitment.
#[derive(Clone, Copy, Debug, PartialEq, Eq, Structural)]
pub struct TxnQuery {
    /// Seconds to wait for commitment; 0 asks for no waiting.
    pub wait: u32,
}

/// The query of a status request.
#[derive(Debug, PartialEq, Eq)]
pub struct StatusQuery {
    /// Seconds to wait for a final state; absent means 0.
    pub wait: Option<u32>,
    /// The batch ids, separated by commas.
    pub ids: String,
}

/// The one call that a request makes on the ledger.
#[derive(Debug, PartialEq, Eq)]
pub enum LedgerCall {
    /// Hand in the batch bytes and wait up to `wait` seconds.
    Submit { batch: Vec<u8>, wait: u32 },
    /// Ask for the status of the batches named, waiting up to `wait` seconds.
    Status { ids: Vec<String>, wait: u32 },
}

/// How the ledger's answer becomes the outcome of the request.
#[derive(Clone, Copy, Debug, PartialEq, Eq, Structural)]
pub enum ReplyRule {
    /// Any list of statuses is a plain success.
    Plain,
    /// The list is a full success only when every batch is committed.
    ByCommitment,
}

/// The outcome of a request that did not fail.
#[derive(Clone, Copy, Debug, PartialEq, Eq, Structural)]
pub enum Outcome {
    /// The statuses are reported as they are.
    Reported,
    /// Every batch is committed.
    Created,
    /// The batches were taken in, and not all are committed yet.
    Accepted,
}

impl Outcome {
    /// The HTTP status code that stands for the outcome.
    pub open spec fn code(self) -> u16 {
        match self {
            Outcome::Reported => 200,
            Outcome::Created => 201,
            Outcome::Accepted => 202,
        }
    }

    /// The HTTP status code that stands for the outcome.
    pub fn http_code(&self) -> (code: u16)
        ensures
            code == self.code(),
    {
        match self {
            Outcome::Reported => 200,
            Outcome::Created => 201,
            Outcome::Accepted => 202,
        }
    }
}

/// A request under way: the call to make, and the rule for its answer.
#[derive(Debug, PartialEq, Eq)]
pub struct Exchange {
    pub call: LedgerCall,
    pub rule: ReplyRule,
}

/// The reply to a request that did not fail.
#[derive(Debug, PartialEq, Eq)]
pub struct Response {
    pub outcome: Outcome,
    pub body: Vec<BatchStatus>,
}

/// The reply to a request that failed.
#[derive(Debug, PartialEq, Eq)]
pub struct ErrorResponse {
    pub class: FaultClass,
    pub error: TransactionError,
}

impl ErrorResponse {
    /// The text that the reply shows the caller. It goes by the failure
    /// alone: a client fault is shown in its debug rendering, a server fault
    /// by the name of its kind and nothing more.
    pub open spec fn message_text(self) -> Seq<char> {
        self.error.message_text()
    }

    /// The text that the reply shows the caller.
    pub fn message(&self) -> (text: String)
        ensures
            text@ == self.message_text(),
    {
        self.error.message()
    }
}

/// The character is white space (the Unicode property `White_Space`).
pub open spec fn is_whitespace(c: char) -> bool {
    ||| '\u{9}' <= c <= '\u{D}'
    ||| c == ' '
    ||| c == '\u{85}'
    ||| c == '\u{A0}'
    ||| c == '\u{1680}'
    ||| '\u{2000}' <= c <= '\u{200A}'
    ||| c == '\u{2028}'
    ||| c == '\u{2029}'
    ||| c == '\u{202F}'
    ||| c == '\u{205F}'
    ||| c == '\u{3000}'
}

/// The text is empty or made of white space alone.
pub open spec fn is_blank(text: Seq<char>) -> bool {
    forall|i: int| 0 <= i < text.len() ==> is_whitespace(#[trigger] text[i])
}

/// The position of the first comma of the text, or its length if it has
/// none.
pub open spec fn first_comma(text: Seq<char>) -> int
    decreases text.len(),
{
    if text.len() == 0 || text[0] == ',' {
        0
    } else {
        1 + first_comma(text.skip(1))
    }
}

/// The pieces into which commas divide the text: one more than it has
/// commas, each possibly empty.
pub open spec fn split_on_comma(text: Seq<char>) -> Seq<Seq<char>>
    decreases text.len(),
{
    let at = first_comma(text);
    if 0 <= at < text.len() {
        seq![text.take(at)] + split_on_comma(text.skip(at + 1))
    } else {
        seq![text]
    }
}

/// The list names no batch: it is empty, or it is the single blank piece
/// that a blank text splits into.
pub open spec fn names_no_id(ids: Seq<Seq<char>>) -> bool {
    ids.len() == 0 || (ids.len() == 1 && is_blank(ids[0]))
}

/// The outcome that a rule assigns to a list of statuses.
pub open spec fn outcome_of(rule: ReplyRule, list: Seq<BatchStatusView>) -> Outcome {
    match rule {
        ReplyRule::Plain => Outcome::Reported,
        ReplyRule::ByCommitment => if all_committed(list) {
            Outcome::Created
        } else {
            Outcome::Accepted
        },
    }
}

/// `first_comma` is the least position that holds a comma, within bounds.
pub proof fn first_comma_is_first(text: Seq<char>)
    ensures
        0 <= first_comma(text) <= text.len(),
        first_comma(text) < text.len() ==> text[first_comma(text)] == ',',
        forall|j: int| 0 <= j < first_comma(text) ==> #[trigger] text[j] != ',',
    decreases text.len(),
{
    if text.len() == 0 || text[0] == ',' {
    } else {
        let rest = text.skip(1);
        first_comma_is_first(rest);
        assert forall|j: int| 0 <= j < first_comma(text) implies #[trigger] text[j] != ',' by {
            if j > 0 {
                assert(rest[j - 1] == text[j]);
            }
        }
        if first_comma(text) < text.len() {
            assert(rest[first_comma(rest)] == text[first_comma(text)]);
        }
    }
}

/// A position that holds a comma and has none before it is the first comma.
pub proof fn first_comma_found(text: Seq<char>, at: int)
    requires
        0 <= at <= text.len(),
        at < text.len() ==> text[at] == ',',
        forall|j: int| 0 <= j < at ==> #[trigger] text[j] != ',',
    ensures
        first_comma(text) == at,
{
    first_comma_is_first(text);
    let found = first_comma(text);
    if found < at {
        assert(text[found] != ',');
    } else if at < found {
        assert(text[at] != ',');
    }
}

/// Cutting at the first comma after `start`: the piece before it, then the
/// pieces of what follows it.
proof fn split_at_comma(text: Seq<char>, start: int, at: int)
    requires
        0 <= start <= at < text.len(),
        text[at] == ',',
        forall|j: int| start <= j < at ==> #[trigger] text[j] != ',',
    ensures
        split_on_comma(text.skip(start)) == seq![text.subrange(start, at)] + split_on_comma(
            text.skip(at + 1),
        ),
{
    let tail = text.skip(start);
    assert forall|j: int| 0 <= j < at - start implies #[trigger] tail[j] != ',' by {
        assert(tail[j] == text[start + j]);
    }
    first_comma_found(tail, at - start);
    assert(tail.take(at - start) =~= text.subrange(start, at));
    assert(tail.skip(at - start + 1) =~= text.skip(at + 1));
}

/// A text without a comma after `start` is one piece from there on.
proof fn split_without_comma(text: Seq<char>, start: int)
    requires
        0 <= start <= text.len(),
        forall|j: int| start <= j < text.len() ==> #[trigger] text[j] != ',',
    ensures
        split_on_comma(text.skip(start)) == seq![text.skip(start)],
{
    let tail = text.skip(start);
    assert forall|j: int| 0 <= j < tail.len() implies #[trigger] tail[j] != ',' by {
        assert(tail[j] == text[start + j]);
    }
    first_comma_found(tail, tail.len() as int);
}

/// Whether the character is white space.
pub fn char_is_whitespace(c: char) -> (r: bool)
    ensures
        r == is_whitespace(c),
{
    ('\u{9}' <= c && c <= '\u{D}') || c == ' ' || c == '\u{85}' || c == '\u{A0}' || c
        == '\u{1680}' || ('\u{2000}' <= c && c <= '\u{200A}') || c == '\u{2028}' || c
        == '\u{2029}' || c == '\u{202F}' || c == '\u{205F}' || c == '\u{3000}'
}

/// Whether the text is empty or made of white space alone.
pub fn text_is_blank(text: &str) -> (r: bool)
    ensures
        r == is_blank(text@),
{
    let mut chars = text.chars();
    let ghost mut seen: int = 0;
    loop
        invariant
            0 <= seen <= text@.len(),
            chars.remaining() == text@.skip(seen),
            chars.obeys_prophetic_iter_laws(),
            chars.decrease() is Some,
            forall|i: int| 0 <= i < seen ==> is_whitespace(#[trigger] text@[i]),
        decreases text@.len() - seen,
    {
        match chars.next() {
            None => {
                return true;
            },
            Some(c) => {
                assert(c == text@[seen]);
                if !char_is_whitespace(c) {
                    return false;
                }
                proof {
                    assert(text@.skip(seen).drop_first() =~= text@.skip(seen + 1));
                    seen = seen + 1;
                }
            },
        }
    }
}

/// Divides a comma-separated text into its pieces.
pub fn split_ids(text: &str) -> (pieces: Vec<String>)
    ensures
        pieces.deep_view() == split_on_comma(text@),
{
    let total = text.unicode_len();
    let mut pieces: Vec<String> = Vec::new();
    let mut chars = text.chars();
    let mut start: usize = 0;
    let mut at: usize = 0;
    assert(text@.skip(0) =~= text@);
    assert(pieces.deep_view() + split_on_comma(text@.skip(0)) =~= split_on_comma(text@));
    while at < total
        invariant
            total == text@.len(),
            0 <= start <= at <= total,
            chars.remaining() == text@.skip(at as int),
            chars.obeys_prophetic_iter_laws(),
            chars.decrease() is Some,
            forall|j: int| start <= j < at ==> #[trigger] text@[j] != ',',
            pieces.deep_view() + split_on_comma(text@.skip(start as int)) == split_on_comma(
                text@,
            ),
        decreases total - at,
    {
        let next = chars.next();
        proof {
            assert(text@.skip(at as int).drop_first() =~= text@.skip(at + 1));
        }
        if next == Some(',') {
            let piece = String::from_str(text.substring_char(start, at));
            proof {
                split_at_comma(text@, start as int, at as int);
                assert(pieces.deep_view().push(piece@) + split_on_comma(text@.skip(at + 1))
                    =~= pieces.deep_view() + split_on_comma(text@.skip(start as int)));
            }
            let ghost before = pieces.deep_view();
            pieces.push(piece);
            assert(pieces.deep_view() =~= before.push(piece@));
            start = at + 1;
        }
        at = at + 1;
    }
    let piece = String::from_str(text.substring_char(start, at));
    proof {
        split_without_comma(text@, start as int);
        assert(text@.subrange(start as int, at as int) =~= text@.skip(start as int));
        assert(pieces.deep_view().push(piece@) =~= pieces.deep_view() + split_on_comma(
            text@.skip(start as int),
        ));
    }
    let ghost before = pieces.deep_view();
    pieces.push(piece);
    assert(pieces.deep_view() =~= before.push(piece@));
    pieces
}

/// The pieces put together again, with a comma between neighbours.
pub open spec fn join_with_comma(pieces: Seq<Seq<char>>) -> Seq<char>
    decreases pieces.len(),
{
    if pieces.len() == 0 {
        Seq::empty()
    } else if pieces.len() == 1 {
        pieces[0]
    } else {
        pieces[0] + seq![','] + join_with_comma(pieces.skip(1))
    }
}

/// Splitting loses nothing: there is at least one piece, no piece holds a
/// comma, and the pieces joined by commas are the text again.
pub proof fn split_then_join(text: Seq<char>)
    ensures
        split_on_comma(text).len() >= 1,
        forall|k: int, j: int|
            0 <= k < split_on_comma(text).len() && 0 <= j < split_on_comma(text)[k].len()
                ==> #[trigger] split_on_comma(text)[k][j] != ',',
        join_with_comma(split_on_comma(text)) == text,
    decreases text.len(),
{
    first_comma_is_first(text);
    let at = first_comma(text);
    let pieces = split_on_comma(text);
    if at < text.len() {
        let rest = split_on_comma(text.skip(at + 1));
        split_then_join(text.skip(at + 1));
        assert(pieces.skip(1) =~= rest);
        assert(pieces[0] == text.take(at));
        assert forall|k: int, j: int|
            0 <= k < pieces.len() && 0 <= j < pieces[k].len() implies #[trigger] pieces[k][j]
            != ',' by {
            if k == 0 {
                assert(pieces[0][j] == text[j]);
            } else {
                assert(pieces[k] == rest[k - 1]);
            }
        }
        assert(text.take(at) + seq![','] + text.skip(at + 1) =~= text);
    } else {
        assert(pieces =~= seq![text]);
    }
}

/// A text names no batch exactly when it is blank.
pub proof fn blank_text_names_no_id(text: Seq<char>)
    ensures
        names_no_id(split_on_comma(text)) <==> is_blank(text),
        is_blank(text) ==> split_on_comma(text) == seq![text],
{
    first_comma_is_first(text);
    split_then_join(text);
    let at = first_comma(text);
    if at < text.len() {
        split_then_join(text.skip(at + 1));
        assert(!is_whitespace(text[at]));
    }
}

/// Whether every batch of the list is committed.
pub fn all_are_committed(list: &Vec<BatchStatus>) -> (r: bool)
    ensures
        r == all_committed(list.deep_view()),
{
    let mut i: usize = 0;
    while i < list.len()
        invariant
            i <= list.len(),
            forall|j: int| 0 <= j < i ==> (#[trigger] list.deep_view()[j]).status
                == CommitStatus::Committed,
        decreases list.len() - i,
    {
        if list[i].status != CommitStatus::Committed {
            assert(list.deep_view()[i as int].status != CommitStatus::Committed);
            return false;
        }
        i += 1;
    }
    true
}

/// The reply to a failure that is not the caller's to mend shows the kind of
/// the failure and none of the text that it carries, whatever class the
/// reply was filed under.
pub proof fn server_fault_reply_names_the_kind_only(reply: ErrorResponse)
    requires
        reply.error.class() == FaultClass::Server,
    ensures
        reply.message_text() == reply.error.kind_name(),
{
}

/// The reply to a failure that the caller can mend shows the failure's debug
/// rendering: the kind, and in brackets the rendering of the carried text.
pub proof fn client_fault_reply_is_the_debug_rendering(reply: ErrorResponse)
    requires
        reply.error.class() == FaultClass::Client,
    ensures
        reply.message_text() == reply.error.kind_name() + "("@ + crate::error::debug_text(
            reply.error.detail(),
        ) + ")"@,
{
}

/// Turns a failure into the reply that reports it: the failure itself, under
/// the class that its kind has.
pub fn map_error(err: TransactionError) -> (reply: ErrorResponse)
    ensures
        reply.error == err,
        reply.class == err.class(),
{
    let class = err.classify();
    ErrorResponse { class, error: err }
}

impl Exchange {
    /// The exchange for a status request on the ids given. A list that names
    /// no batch is turned away here, before anything is asked of the ledger.
    pub fn status(ids: Vec<String>, wait: u32) -> (result: Result<Exchange, ErrorResponse>)
        ensures
            match result {
                Ok(exchange) => {
                    &&& !names_no_id(ids.deep_view())
                    &&& exchange.rule == ReplyRule::Plain
                    &&& exchange.call == (LedgerCall::Status { ids, wait })
                },
                Err(reply) => {
                    &&& names_no_id(ids.deep_view())
                    &&& reply.class == FaultClass::Client
                    &&& reply.error is InvalidId
                    &&& reply.error.detail() == join_with_comma(ids.deep_view())
                },
            },
    {
        if ids.len() == 0 {
            return Err(map_error(TransactionError::InvalidId(String::new())));
        }
        if ids.len() == 1 && text_is_blank(ids[0].as_str()) {
            assert(ids.deep_view()[0] == ids[0]@);
            return Err(map_error(TransactionError::InvalidId(ids[0].clone())));
        }
        assert(ids.len() == 1 ==> ids.deep_view()[0] == ids[0]@);
        Ok(Exchange { call: LedgerCall::Status { ids, wait }, rule: ReplyRule::Plain })
    }

    /// Turns the ledger's answer into the reply. A list of statuses is
    /// passed on as it came, whatever states it holds, under the outcome
    /// that the rule assigns; a failure is passed on under its class.
    pub fn complete(&self, answer: Result<Vec<BatchStatus>, TransactionError>) -> (result: Result<
        Response,
        ErrorResponse,
    >)
        ensures
            match answer {
                Ok(list) => result matches Ok(reply) && reply.body == list && reply.outcome
                    == outcome_of(self.rule, list.deep_view()),
                Err(error) => result matches Err(reply) && reply.error == error && reply.class
                    == error.class(),
            },
    {
        match answer {
            Ok(list) => {
                let outcome = match self.rule {
                    ReplyRule::Plain => Outcome::Reported,
                    ReplyRule::ByCommitment => if all_are_committed(&list) {
                        Outcome::Created
                    } else {
                        Outcome::Accepted
                    },
                };
                Ok(Response { outcome, body: list })
            },
            Err(error) => Err(map_error(error)),
        }
    }
}

/// A submission that waits: the batch bytes go to the ledger with the wait
/// budget of the query, and the answer counts as created only when every
/// batch is committed.
pub fn submit_txns_wait(data: Vec<u8>, query: TxnQuery) -> (exchange: Exchange)
    ensures
        exchange.call == (LedgerCall::Submit { batch: data, wait: query.wait }),
        exchange.rule == ReplyRule::ByCommitment,
{
    Exchange {
        call: LedgerCall::Submit { batch: data, wait: query.wait },
        rule: ReplyRule::ByCommitment,
    }
}

/// A submission that does not wait: the batch bytes go to the ledger with a
/// wait budget of 0. As for any submission, the answer counts as created
/// only when every batch is committed, and as accepted otherwise.
pub fn submit_txns(data: Vec<u8>) -> (exchange: Exchange)
    ensures
        exchange.call == (LedgerCall::Submit { batch: data, wait: 0 }),
        exchange.rule == ReplyRule::ByCommitment,
{
    Exchange { call: LedgerCall::Submit { batch: data, wait: 0 }, rule: ReplyRule::ByCommitment }
}

/// A status request: the ids of the query, divided at the commas, go to the
/// ledger with the wait budget of the query, or 0 where it has none. A
/// blank id text is turned away before anything is asked of the ledger.
pub fn get_batch_status(query: StatusQuery) -> (result: Result<Exchange, ErrorResponse>)
    ensures
        match result {
            Ok(exchange) => {
                &&& !is_blank(query.ids@)
                &&& exchange.rule == ReplyRule::Plain
                &&& exchange.call matches LedgerCall::Status { ids, wait }
                &&& ids.deep_view() == split_on_comma(query.ids@)
                &&& wait == match query.wait {
                    Some(seconds) => seconds,
                    None => 0,
                }
            },
            Err(reply) => {
                &&& is_blank(query.ids@)
                &&& reply.class == FaultClass::Client
                &&& reply.error is InvalidId
                &&& reply.error.detail() == query.ids@
            },
        },
{
    let wait: u32 = match query.wait {
        Some(seconds) => seconds,
        None => 0,
    };
    let ids = split_ids(query.ids.as_str());
    proof {
        blank_text_names_no_id(query.ids@);
    }
    Exchange::status(ids, wait)
}

} // verus!
