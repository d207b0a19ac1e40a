//! Which failures are worth a retry, with the texts that decide it written out.

use vstd::prelude::*;

use crate::call::failure_outcome;
use crate::envelope::{
    classified, downstream_error, given_as_status, is_retryable, names_server_error,
    rejection_markers, server_error_at, status_leads, transport_markers,
};
use crate::json::{lemma_member_push, JsonView};
use crate::observe::Outcome;
use crate::text::{any_occurs_in, ascii_lower, occurs_at, occurs_in};

verus! {

/// The text says that the caller or the configuration is at fault.
pub open spec fn speaks_of_rejection(s: Seq<char>) -> bool {
    ||| occurs_in(s, "syntax"@)
    ||| occurs_in(s, "invalid query"@)
    ||| occurs_in(s, "not found"@)
    ||| occurs_in(s, "does not exist"@)
    ||| occurs_in(s, "unrecognized name"@)
    ||| occurs_in(s, "authentication"@)
    ||| occurs_in(s, "auth "@)
    ||| occurs_in(s, "invalid_grant"@)
    ||| occurs_in(s, "credential"@)
    ||| occurs_in(s, "unauthorized"@)
    ||| occurs_in(s, "permission"@)
    ||| occurs_in(s, "access denied"@)
    ||| occurs_in(s, "forbidden"@)
    ||| occurs_in(s, "maximum_bytes_billed"@)
    ||| occurs_in(s, "bytesbilledlimitexceeded"@)
    ||| occurs_in(s, "bytes billed"@)
    ||| occurs_in(s, "read-only guard"@)
}

/// The text says that the connection, the time or the server is at fault.
pub open spec fn speaks_of_transport(s: Seq<char>) -> bool {
    ||| occurs_in(s, "connect"@)
    ||| occurs_in(s, "timed out"@)
    ||| occurs_in(s, "timeout"@)
    ||| occurs_in(s, "broken pipe"@)
    ||| occurs_in(s, "connection reset"@)
    ||| occurs_in(s, "eof"@)
    ||| occurs_in(s, "dns"@)
    ||| occurs_in(s, "429"@)
    ||| occurs_in(s, "too many requests"@)
    ||| occurs_in(s, "rate limit"@)
    ||| occurs_in(s, "ratelimitexceeded"@)
    ||| occurs_in(s, "backenderror"@)
    ||| occurs_in(s, "500"@)
    ||| occurs_in(s, "502"@)
    ||| occurs_in(s, "503"@)
    ||| occurs_in(s, "504"@)
    ||| occurs_in(s, "service unavailable"@)
}

/// A number from 500 to 599 stands at position `i`, right behind words that make
/// it a status.
pub open spec fn status_code_at(s: Seq<char>, i: int) -> bool {
    &&& 0 <= i <= s.len() - 3
    &&& s[i] == '5'
    &&& '0' <= s[i + 1] <= '9'
    &&& '0' <= s[i + 2] <= '9'
    &&& i > 0 ==> !('0' <= s[i - 1] <= '9')
    &&& i < s.len() - 3 ==> !('0' <= s[i + 3] <= '9')
    &&& {
        ||| occurs_at(s, "code: "@, i - 6)
        ||| occurs_at(s, "status code "@, i - 12)
        ||| occurs_at(s, "status: "@, i - 8)
        ||| occurs_at(s, "status "@, i - 7)
        ||| occurs_at(s, "http "@, i - 5)
        ||| occurs_at(s, "http status server error ("@, i - 26)
    }
}

/// The marker lists, by position.
proof fn lemma_markers_by_position()
    ensures
        rejection_markers().len() == 17,
        rejection_markers()[0] == "syntax"@,
        rejection_markers()[1] == "invalid query"@,
        rejection_markers()[2] == "not found"@,
        rejection_markers()[3] == "does not exist"@,
        rejection_markers()[4] == "unrecognized name"@,
        rejection_markers()[5] == "authentication"@,
        rejection_markers()[6] == "auth "@,
        rejection_markers()[7] == "invalid_grant"@,
        rejection_markers()[8] == "credential"@,
        rejection_markers()[9] == "unauthorized"@,
        rejection_markers()[10] == "permission"@,
        rejection_markers()[11] == "access denied"@,
        rejection_markers()[12] == "forbidden"@,
        rejection_markers()[13] == "maximum_bytes_billed"@,
        rejection_markers()[14] == "bytesbilledlimitexceeded"@,
        rejection_markers()[15] == "bytes billed"@,
        rejection_markers()[16] == "read-only guard"@,
        transport_markers().len() == 17,
        transport_markers()[0] == "connect"@,
        transport_markers()[1] == "timed out"@,
        transport_markers()[2] == "timeout"@,
        transport_markers()[3] == "broken pipe"@,
        transport_markers()[4] == "connection reset"@,
        transport_markers()[5] == "eof"@,
        transport_markers()[6] == "dns"@,
        transport_markers()[7] == "429"@,
        transport_markers()[8] == "too many requests"@,
        transport_markers()[9] == "rate limit"@,
        transport_markers()[10] == "ratelimitexceeded"@,
        transport_markers()[11] == "backenderror"@,
        transport_markers()[12] == "500"@,
        transport_markers()[13] == "502"@,
        transport_markers()[14] == "503"@,
        transport_markers()[15] == "504"@,
        transport_markers()[16] == "service unavailable"@,
        status_leads().len() == 6,
        status_leads()[0] == "code: "@,
        status_leads()[1] == "status code "@,
        status_leads()[2] == "status: "@,
        status_leads()[3] == "status "@,
        status_leads()[4] == "http "@,
        status_leads()[5] == "http status server error ("@,
{
}

/// The leads are as long as they are.
proof fn lemma_lead_lengths()
    ensures
        "code: "@.len() == 6,
        "status code "@.len() == 12,
        "status: "@.len() == 8,
        "status "@.len() == 7,
        "http "@.len() == 5,
        "http status server error ("@.len() == 26,
{
    reveal_strlit("code: ");
    reveal_strlit("status code ");
    reveal_strlit("status: ");
    reveal_strlit("status ");
    reveal_strlit("http ");
    reveal_strlit("http status server error (");
}

/// One of the texts is there exactly where the list of them has one that is.
proof fn lemma_texts_are_listed(s: Seq<char>)
    ensures
        any_occurs_in(s, rejection_markers()) <==> speaks_of_rejection(s),
        any_occurs_in(s, transport_markers()) <==> speaks_of_transport(s),
{
    lemma_markers_by_position();
    if any_occurs_in(s, rejection_markers()) {
        let k = choose|k: int|
            0 <= k < rejection_markers().len() && occurs_in(s, #[trigger] rejection_markers()[k]);
        assert(k == 0 || k == 1 || k == 2 || k == 3 || k == 4 || k == 5 || k == 6 || k == 7 || k == 8 || k == 9 || k == 10 || k == 11 || k == 12 || k == 13 || k == 14 || k == 15 || k == 16);
    }
    if any_occurs_in(s, transport_markers()) {
        let k = choose|k: int|
            0 <= k < transport_markers().len() && occurs_in(s, #[trigger] transport_markers()[k]);
        assert(k == 0 || k == 1 || k == 2 || k == 3 || k == 4 || k == 5 || k == 6 || k == 7 || k == 8 || k == 9 || k == 10 || k == 11 || k == 12 || k == 13 || k == 14 || k == 15 || k == 16);
    }
}

/// A status code stands at a position exactly where a server error code is given
/// as a status there.
proof fn lemma_status_code(s: Seq<char>, i: int)
    ensures
        status_code_at(s, i) <==> server_error_at(s, i) && given_as_status(s, i),
{
    lemma_markers_by_position();
    lemma_lead_lengths();
    if given_as_status(s, i) {
        let k = choose|k: int|
            0 <= k < status_leads().len() && occurs_at(
                s,
                #[trigger] status_leads()[k],
                i - status_leads()[k].len(),
            );
        assert(k == 0 || k == 1 || k == 2 || k == 3 || k == 4 || k == 5);
    }
}

/// A failure is worth a retry exactly where its message, in ASCII small letters,
/// holds none of the texts of a rejection, and holds one of the texts of the
/// transport or gives a code from 500 to 599 as a status.
pub proof fn law_retryable_exactly(message: Seq<char>)
    ensures
        is_retryable(message) <==> !speaks_of_rejection(ascii_lower(message)) && (
        speaks_of_transport(ascii_lower(message)) || exists|i: int|
            #[trigger] status_code_at(ascii_lower(message), i)),
{
    let s = ascii_lower(message);
    lemma_texts_are_listed(s);
    if names_server_error(s) {
        let i = choose|i: int| #[trigger] server_error_at(s, i) && given_as_status(s, i);
        lemma_status_code(s, i);
        assert(status_code_at(s, i));
    }
    if exists|i: int| #[trigger] status_code_at(s, i) {
        let i = choose|i: int| #[trigger] status_code_at(s, i);
        lemma_status_code(s, i);
    }
}

/// A message with none of the texts that speak of the transport, and without a
/// code from 500 to 599 given as a status, is not worth a retry.
pub proof fn law_nothing_else_is_retryable(message: Seq<char>)
    requires
        !occurs_in(ascii_lower(message), "connect"@),
        !occurs_in(ascii_lower(message), "timed out"@),
        !occurs_in(ascii_lower(message), "timeout"@),
        !occurs_in(ascii_lower(message), "broken pipe"@),
        !occurs_in(ascii_lower(message), "connection reset"@),
        !occurs_in(ascii_lower(message), "eof"@),
        !occurs_in(ascii_lower(message), "dns"@),
        !occurs_in(ascii_lower(message), "429"@),
        !occurs_in(ascii_lower(message), "too many requests"@),
        !occurs_in(ascii_lower(message), "rate limit"@),
        !occurs_in(ascii_lower(message), "ratelimitexceeded"@),
        !occurs_in(ascii_lower(message), "backenderror"@),
        !occurs_in(ascii_lower(message), "500"@),
        !occurs_in(ascii_lower(message), "502"@),
        !occurs_in(ascii_lower(message), "503"@),
        !occurs_in(ascii_lower(message), "504"@),
        !occurs_in(ascii_lower(message), "service unavailable"@),
        forall|i: int| !#[trigger] status_code_at(ascii_lower(message), i),
    ensures
        !is_retryable(message),
        classified(message).at("kind"@) == JsonView::Str("bigquery_error"@),
        classified(message).at("retryable"@) == JsonView::Bool(false),
{
    law_retryable_exactly(message);
    law_failure_document(message);
}

/// A message with any of the texts that speak of a rejection is not worth a
/// retry, whatever else it says.
pub proof fn law_rejections_are_final(message: Seq<char>)
    requires
        ({
            let s = ascii_lower(message);
            ||| occurs_in(s, "syntax"@)
            ||| occurs_in(s, "invalid query"@)
            ||| occurs_in(s, "not found"@)
            ||| occurs_in(s, "does not exist"@)
            ||| occurs_in(s, "unrecognized name"@)
            ||| occurs_in(s, "authentication"@)
            ||| occurs_in(s, "auth "@)
            ||| occurs_in(s, "invalid_grant"@)
            ||| occurs_in(s, "credential"@)
            ||| occurs_in(s, "unauthorized"@)
            ||| occurs_in(s, "permission"@)
            ||| occurs_in(s, "access denied"@)
            ||| occurs_in(s, "forbidden"@)
            ||| occurs_in(s, "maximum_bytes_billed"@)
            ||| occurs_in(s, "bytesbilledlimitexceeded"@)
            ||| occurs_in(s, "bytes billed"@)
            ||| occurs_in(s, "read-only guard"@)
        }),
    ensures
        !is_retryable(message),
        classified(message).at("kind"@) == JsonView::Str("bigquery_error"@),
        classified(message).at("retryable"@) == JsonView::Bool(false),
{
    law_retryable_exactly(message);
    law_failure_document(message);
}

/// A message with none of the texts that speak of a rejection is worth a retry
/// where it has one of those that speak of the transport.
pub proof fn law_transport_failures_are_retryable(message: Seq<char>)
    requires
        !occurs_in(ascii_lower(message), "syntax"@),
        !occurs_in(ascii_lower(message), "invalid query"@),
        !occurs_in(ascii_lower(message), "not found"@),
        !occurs_in(ascii_lower(message), "does not exist"@),
        !occurs_in(ascii_lower(message), "unrecognized name"@),
        !occurs_in(ascii_lower(message), "authentication"@),
        !occurs_in(ascii_lower(message), "auth "@),
        !occurs_in(ascii_lower(message), "invalid_grant"@),
        !occurs_in(ascii_lower(message), "credential"@),
        !occurs_in(ascii_lower(message), "unauthorized"@),
        !occurs_in(ascii_lower(message), "permission"@),
        !occurs_in(ascii_lower(message), "access denied"@),
        !occurs_in(ascii_lower(message), "forbidden"@),
        !occurs_in(ascii_lower(message), "maximum_bytes_billed"@),
        !occurs_in(ascii_lower(message), "bytesbilledlimitexceeded"@),
        !occurs_in(ascii_lower(message), "bytes billed"@),
        !occurs_in(ascii_lower(message), "read-only guard"@),
        ({
            let s = ascii_lower(message);
            ||| occurs_in(s, "connect"@)
            ||| occurs_in(s, "timed out"@)
            ||| occurs_in(s, "timeout"@)
            ||| occurs_in(s, "broken pipe"@)
            ||| occurs_in(s, "connection reset"@)
            ||| occurs_in(s, "eof"@)
            ||| occurs_in(s, "dns"@)
            ||| occurs_in(s, "429"@)
            ||| occurs_in(s, "too many requests"@)
            ||| occurs_in(s, "rate limit"@)
            ||| occurs_in(s, "ratelimitexceeded"@)
            ||| occurs_in(s, "backenderror"@)
            ||| occurs_in(s, "500"@)
            ||| occurs_in(s, "502"@)
            ||| occurs_in(s, "503"@)
            ||| occurs_in(s, "504"@)
            ||| occurs_in(s, "service unavailable"@)
        }),
    ensures
        is_retryable(message),
        classified(message).at("kind"@) == JsonView::Str("transport_error"@),
        classified(message).at("retryable"@) == JsonView::Bool(true),
{
    law_retryable_exactly(message);
    law_failure_document(message);
}

/// The document of a failure has its kind, its code after the kind, its message
/// as it stands, and the advice that goes with whether a retry is worth it.
pub proof fn law_failure_document(message: Seq<char>)
    ensures
        classified(message).at("message"@) == JsonView::Str(message),
        classified(message).at("retryable"@) == JsonView::Bool(is_retryable(message)),
        is_retryable(message) ==> {
            &&& classified(message).at("kind"@) == JsonView::Str("transport_error"@)
            &&& classified(message).at("code"@) == JsonView::Str(
                "mcpg.downstream_bigquery."@ + "transport_error"@,
            )
            &&& classified(message).at("retryClass"@) == JsonView::Str("with_backoff"@)
            &&& classified(message).at("suggestedAction"@) == JsonView::Str(
                "check_bigquery_connectivity_and_retry"@,
            )
        },
        !is_retryable(message) ==> {
            &&& classified(message).at("kind"@) == JsonView::Str("bigquery_error"@)
            &&& classified(message).at("code"@) == JsonView::Str(
                "mcpg.downstream_bigquery."@ + "bigquery_error"@,
            )
            &&& classified(message).at("retryClass"@) == JsonView::Str("do_not_retry"@)
            &&& classified(message).at("suggestedAction"@) == JsonView::Str(
                "inspect_sql_error"@,
            )
        },
{
    if is_retryable(message) {
        law_downstream_error_slots("transport_error"@, message, true);
    } else {
        law_downstream_error_slots("bigquery_error"@, message, false);
    }
}

/// The slots of a downstream error, for any kind.
pub proof fn law_downstream_error_slots(kind: Seq<char>, message: Seq<char>, retryable: bool)
    ensures
        ({
            let failure = downstream_error(kind, message, retryable);
            &&& failure is Object
            &&& failure->Object_0.len() == 6
            &&& failure.at("kind"@) == JsonView::Str(kind)
            &&& failure.at("code"@) == JsonView::Str("mcpg.downstream_bigquery."@ + kind)
            &&& failure.at("message"@) == JsonView::Str(message)
            &&& failure.at("retryable"@) == JsonView::Bool(retryable)
            &&& retryable ==> failure.at("retryClass"@) == JsonView::Str("with_backoff"@)
            &&& !retryable ==> failure.at("retryClass"@) == JsonView::Str("do_not_retry"@)
            &&& retryable ==> failure.at("suggestedAction"@) == JsonView::Str(
                "check_bigquery_connectivity_and_retry"@,
            )
            &&& !retryable ==> failure.at("suggestedAction"@) == JsonView::Str(
                "inspect_sql_error"@,
            )
        }),
{
    broadcast use lemma_member_push;

    reveal_strlit("kind");
    reveal_strlit("code");
    reveal_strlit("message");
    reveal_strlit("retryable");
    reveal_strlit("retryClass");
    reveal_strlit("suggestedAction");
    assert("kind"@[0] == 'k' && "code"@[0] == 'c');
    assert("kind"@.len() == 4 && "code"@.len() == 4 && "message"@.len() == 7);
    assert("retryable"@.len() == 9 && "retryClass"@.len() == 10);
    assert("suggestedAction"@.len() == 15);
}

/// No beginning of `needle` stands in `front` so that it could go on behind it.
pub open spec fn cannot_begin_in(needle: Seq<char>, front: Seq<char>) -> bool {
    &&& needle.len() >= 3
    &&& forall|j: int|
        0 <= j < front.len() ==> {
            ||| needle[0] != #[trigger] front[j]
            ||| j + 1 < front.len() && needle[1] != front[j + 1]
            ||| j + 2 < front.len() && needle[2] != front[j + 2]
        }
}

/// A text that cannot begin in what stands in front stands behind it or nowhere.
proof fn lemma_only_behind(front: Seq<char>, rest: Seq<char>, needle: Seq<char>, i: int)
    requires
        cannot_begin_in(needle, front),
    ensures
        occurs_at(front + rest, needle, i) <==> occurs_at(rest, needle, i - front.len()),
{
    let whole = front + rest;
    if occurs_at(whole, needle, i) {
        let part = whole.subrange(i, i + needle.len());
        assert(part[0] == whole[i] && part[1] == whole[i + 1] && part[2] == whole[i + 2]);
        if i < front.len() {
            assert(whole[i] == front[i]);
            if i + 1 < front.len() {
                assert(whole[i + 1] == front[i + 1]);
            }
            if i + 2 < front.len() {
                assert(whole[i + 2] == front[i + 2]);
            }
            assert(false);
        }
        assert(rest.subrange(i - front.len(), i - front.len() + needle.len()) =~= part);
    }
    if occurs_at(rest, needle, i - front.len()) {
        assert(whole.subrange(i, i + needle.len()) =~= rest.subrange(
            i - front.len(),
            i - front.len() + needle.len(),
        ));
    }
}

/// A text that cannot begin in what stands in front is in the whole exactly where
/// it is in the rest.
proof fn lemma_only_in_rest(front: Seq<char>, rest: Seq<char>, needle: Seq<char>)
    requires
        cannot_begin_in(needle, front),
    ensures
        occurs_in(front + rest, needle) <==> occurs_in(rest, needle),
{
    if occurs_in(front + rest, needle) {
        let i = choose|i: int| occurs_at(front + rest, needle, i);
        lemma_only_behind(front, rest, needle, i);
        assert(occurs_at(rest, needle, i - front.len()));
    }
    if occurs_in(rest, needle) {
        let i = choose|i: int| occurs_at(rest, needle, i);
        lemma_only_behind(front, rest, needle, i + front.len());
        assert(occurs_at(front + rest, needle, i + front.len()));
    }
}

/// What is said of a failed query, in small letters, character by character.
proof fn lemma_query_front()
    ensures
        ascii_lower("BigQuery query failed: "@) == "bigquery query failed: "@,
        "bigquery query failed: "@.len() == 23,
        "bigquery query failed: "@[0] == 'b',
        "bigquery query failed: "@[1] == 'i',
        "bigquery query failed: "@[2] == 'g',
        "bigquery query failed: "@[3] == 'q',
        "bigquery query failed: "@[4] == 'u',
        "bigquery query failed: "@[5] == 'e',
        "bigquery query failed: "@[6] == 'r',
        "bigquery query failed: "@[7] == 'y',
        "bigquery query failed: "@[8] == ' ',
        "bigquery query failed: "@[9] == 'q',
        "bigquery query failed: "@[10] == 'u',
        "bigquery query failed: "@[11] == 'e',
        "bigquery query failed: "@[12] == 'r',
        "bigquery query failed: "@[13] == 'y',
        "bigquery query failed: "@[14] == ' ',
        "bigquery query failed: "@[15] == 'f',
        "bigquery query failed: "@[16] == 'a',
        "bigquery query failed: "@[17] == 'i',
        "bigquery query failed: "@[18] == 'l',
        "bigquery query failed: "@[19] == 'e',
        "bigquery query failed: "@[20] == 'd',
        "bigquery query failed: "@[21] == ':',
        "bigquery query failed: "@[22] == ' ',
{
    reveal_strlit("BigQuery query failed: ");
    reveal_strlit("bigquery query failed: ");
    assert(ascii_lower("BigQuery query failed: "@) =~= "bigquery query failed: "@);
}

/// No text of the kind begins in what is said of a failed query.
proof fn lemma_query_front_begins_no_rejection()
    ensures
        cannot_begin_in("syntax"@, "bigquery query failed: "@),
        cannot_begin_in("invalid query"@, "bigquery query failed: "@),
        cannot_begin_in("not found"@, "bigquery query failed: "@),
        cannot_begin_in("does not exist"@, "bigquery query failed: "@),
        cannot_begin_in("unrecognized name"@, "bigquery query failed: "@),
        cannot_begin_in("authentication"@, "bigquery query failed: "@),
        cannot_begin_in("auth "@, "bigquery query failed: "@),
        cannot_begin_in("invalid_grant"@, "bigquery query failed: "@),
        cannot_begin_in("credential"@, "bigquery query failed: "@),
        cannot_begin_in("unauthorized"@, "bigquery query failed: "@),
        cannot_begin_in("permission"@, "bigquery query failed: "@),
        cannot_begin_in("access denied"@, "bigquery query failed: "@),
        cannot_begin_in("forbidden"@, "bigquery query failed: "@),
        cannot_begin_in("maximum_bytes_billed"@, "bigquery query failed: "@),
        cannot_begin_in("bytesbilledlimitexceeded"@, "bigquery query failed: "@),
        cannot_begin_in("bytes billed"@, "bigquery query failed: "@),
        cannot_begin_in("read-only guard"@, "bigquery query failed: "@),
{
    lemma_query_front();

    assert(cannot_begin_in("syntax"@, "bigquery query failed: "@)) by {
        reveal_strlit("syntax");
        assert("syntax"@.len() == 6 && "syntax"@[0] == 's' && "syntax"@[1] == 'y' && "syntax"@[2] == 'n');
    }
    assert(cannot_begin_in("invalid query"@, "bigquery query failed: "@)) by {
        reveal_strlit("invalid query");
        assert("invalid query"@.len() == 13 && "invalid query"@[0] == 'i' && "invalid query"@[1] == 'n' && "invalid query"@[2] == 'v');
    }
    assert(cannot_begin_in("not found"@, "bigquery query failed: "@)) by {
        reveal_strlit("not found");
        assert("not found"@.len() == 9 && "not found"@[0] == 'n' && "not found"@[1] == 'o' && "not found"@[2] == 't');
    }
    assert(cannot_begin_in("does not exist"@, "bigquery query failed: "@)) by {
        reveal_strlit("does not exist");
        assert("does not exist"@.len() == 14 && "does not exist"@[0] == 'd' && "does not exist"@[1] == 'o' && "does not exist"@[2] == 'e');
    }
    assert(cannot_begin_in("unrecognized name"@, "bigquery query failed: "@)) by {
        reveal_strlit("unrecognized name");
        assert("unrecognized name"@.len() == 17 && "unrecognized name"@[0] == 'u' && "unrecognized name"@[1] == 'n' && "unrecognized name"@[2] == 'r');
    }
    assert(cannot_begin_in("authentication"@, "bigquery query failed: "@)) by {
        reveal_strlit("authentication");
        assert("authentication"@.len() == 14 && "authentication"@[0] == 'a' && "authentication"@[1] == 'u' && "authentication"@[2] == 't');
    }
    assert(cannot_begin_in("auth "@, "bigquery query failed: "@)) by {
        reveal_strlit("auth ");
        assert("auth "@.len() == 5 && "auth "@[0] == 'a' && "auth "@[1] == 'u' && "auth "@[2] == 't');
    }
    assert(cannot_begin_in("invalid_grant"@, "bigquery query failed: "@)) by {
        reveal_strlit("invalid_grant");
        assert("invalid_grant"@.len() == 13 && "invalid_grant"@[0] == 'i' && "invalid_grant"@[1] == 'n' && "invalid_grant"@[2] == 'v');
    }
    assert(cannot_begin_in("credential"@, "bigquery query failed: "@)) by {
        reveal_strlit("credential");
        assert("credential"@.len() == 10 && "credential"@[0] == 'c' && "credential"@[1] == 'r' && "credential"@[2] == 'e');
    }
    assert(cannot_begin_in("unauthorized"@, "bigquery query failed: "@)) by {
        reveal_strlit("unauthorized");
        assert("unauthorized"@.len() == 12 && "unauthorized"@[0] == 'u' && "unauthorized"@[1] == 'n' && "unauthorized"@[2] == 'a');
    }
    assert(cannot_begin_in("permission"@, "bigquery query failed: "@)) by {
        reveal_strlit("permission");
        assert("permission"@.len() == 10 && "permission"@[0] == 'p' && "permission"@[1] == 'e' && "permission"@[2] == 'r');
    }
    assert(cannot_begin_in("access denied"@, "bigquery query failed: "@)) by {
        reveal_strlit("access denied");
        assert("access denied"@.len() == 13 && "access denied"@[0] == 'a' && "access denied"@[1] == 'c' && "access denied"@[2] == 'c');
    }
    assert(cannot_begin_in("forbidden"@, "bigquery query failed: "@)) by {
        reveal_strlit("forbidden");
        assert("forbidden"@.len() == 9 && "forbidden"@[0] == 'f' && "forbidden"@[1] == 'o' && "forbidden"@[2] == 'r');
    }
    assert(cannot_begin_in("maximum_bytes_billed"@, "bigquery query failed: "@)) by {
        reveal_strlit("maximum_bytes_billed");
        assert("maximum_bytes_billed"@.len() == 20 && "maximum_bytes_billed"@[0] == 'm' && "maximum_bytes_billed"@[1] == 'a' && "maximum_bytes_billed"@[2] == 'x');
    }
    assert(cannot_begin_in("bytesbilledlimitexceeded"@, "bigquery query failed: "@)) by {
        reveal_strlit("bytesbilledlimitexceeded");
        assert("bytesbilledlimitexceeded"@.len() == 24 && "bytesbilledlimitexceeded"@[0] == 'b' && "bytesbilledlimitexceeded"@[1] == 'y' && "bytesbilledlimitexceeded"@[2] == 't');
    }
    assert(cannot_begin_in("bytes billed"@, "bigquery query failed: "@)) by {
        reveal_strlit("bytes billed");
        assert("bytes billed"@.len() == 12 && "bytes billed"@[0] == 'b' && "bytes billed"@[1] == 'y' && "bytes billed"@[2] == 't');
    }
    assert(cannot_begin_in("read-only guard"@, "bigquery query failed: "@)) by {
        reveal_strlit("read-only guard");
        assert("read-only guard"@.len() == 15 && "read-only guard"@[0] == 'r' && "read-only guard"@[1] == 'e' && "read-only guard"@[2] == 'a');
    }
}

/// No text of the kind begins in what is said of a failed query.
proof fn lemma_query_front_begins_no_transport()
    ensures
        cannot_begin_in("connect"@, "bigquery query failed: "@),
        cannot_begin_in("timed out"@, "bigquery query failed: "@),
        cannot_begin_in("timeout"@, "bigquery query failed: "@),
        cannot_begin_in("broken pipe"@, "bigquery query failed: "@),
        cannot_begin_in("connection reset"@, "bigquery query failed: "@),
        cannot_begin_in("eof"@, "bigquery query failed: "@),
        cannot_begin_in("dns"@, "bigquery query failed: "@),
        cannot_begin_in("429"@, "bigquery query failed: "@),
        cannot_begin_in("too many requests"@, "bigquery query failed: "@),
        cannot_begin_in("rate limit"@, "bigquery query failed: "@),
        cannot_begin_in("ratelimitexceeded"@, "bigquery query failed: "@),
        cannot_begin_in("backenderror"@, "bigquery query failed: "@),
        cannot_begin_in("500"@, "bigquery query failed: "@),
        cannot_begin_in("502"@, "bigquery query failed: "@),
        cannot_begin_in("503"@, "bigquery query failed: "@),
        cannot_begin_in("504"@, "bigquery query failed: "@),
        cannot_begin_in("service unavailable"@, "bigquery query failed: "@),
{
    lemma_query_front();

    assert(cannot_begin_in("connect"@, "bigquery query failed: "@)) by {
        reveal_strlit("connect");
        assert("connect"@.len() == 7 && "connect"@[0] == 'c' && "connect"@[1] == 'o' && "connect"@[2] == 'n');
    }
    assert(cannot_begin_in("timed out"@, "bigquery query failed: "@)) by {
        reveal_strlit("timed out");
        assert("timed out"@.len() == 9 && "timed out"@[0] == 't' && "timed out"@[1] == 'i' && "timed out"@[2] == 'm');
    }
    assert(cannot_begin_in("timeout"@, "bigquery query failed: "@)) by {
        reveal_strlit("timeout");
        assert("timeout"@.len() == 7 && "timeout"@[0] == 't' && "timeout"@[1] == 'i' && "timeout"@[2] == 'm');
    }
    assert(cannot_begin_in("broken pipe"@, "bigquery query failed: "@)) by {
        reveal_strlit("broken pipe");
        assert("broken pipe"@.len() == 11 && "broken pipe"@[0] == 'b' && "broken pipe"@[1] == 'r' && "broken pipe"@[2] == 'o');
    }
    assert(cannot_begin_in("connection reset"@, "bigquery query failed: "@)) by {
        reveal_strlit("connection reset");
        assert("connection reset"@.len() == 16 && "connection reset"@[0] == 'c' && "connection reset"@[1] == 'o' && "connection reset"@[2] == 'n');
    }
    assert(cannot_begin_in("eof"@, "bigquery query failed: "@)) by {
        reveal_strlit("eof");
        assert("eof"@.len() == 3 && "eof"@[0] == 'e' && "eof"@[1] == 'o' && "eof"@[2] == 'f');
    }
    assert(cannot_begin_in("dns"@, "bigquery query failed: "@)) by {
        reveal_strlit("dns");
        assert("dns"@.len() == 3 && "dns"@[0] == 'd' && "dns"@[1] == 'n' && "dns"@[2] == 's');
    }
    assert(cannot_begin_in("429"@, "bigquery query failed: "@)) by {
        reveal_strlit("429");
        assert("429"@.len() == 3 && "429"@[0] == '4' && "429"@[1] == '2' && "429"@[2] == '9');
    }
    assert(cannot_begin_in("too many requests"@, "bigquery query failed: "@)) by {
        reveal_strlit("too many requests");
        assert("too many requests"@.len() == 17 && "too many requests"@[0] == 't' && "too many requests"@[1] == 'o' && "too many requests"@[2] == 'o');
    }
    assert(cannot_begin_in("rate limit"@, "bigquery query failed: "@)) by {
        reveal_strlit("rate limit");
        assert("rate limit"@.len() == 10 && "rate limit"@[0] == 'r' && "rate limit"@[1] == 'a' && "rate limit"@[2] == 't');
    }
    assert(cannot_begin_in("ratelimitexceeded"@, "bigquery query failed: "@)) by {
        reveal_strlit("ratelimitexceeded");
        assert("ratelimitexceeded"@.len() == 17 && "ratelimitexceeded"@[0] == 'r' && "ratelimitexceeded"@[1] == 'a' && "ratelimitexceeded"@[2] == 't');
    }
    assert(cannot_begin_in("backenderror"@, "bigquery query failed: "@)) by {
        reveal_strlit("backenderror");
        assert("backenderror"@.len() == 12 && "backenderror"@[0] == 'b' && "backenderror"@[1] == 'a' && "backenderror"@[2] == 'c');
    }
    assert(cannot_begin_in("500"@, "bigquery query failed: "@)) by {
        reveal_strlit("500");
        assert("500"@.len() == 3 && "500"@[0] == '5' && "500"@[1] == '0' && "500"@[2] == '0');
    }
    assert(cannot_begin_in("502"@, "bigquery query failed: "@)) by {
        reveal_strlit("502");
        assert("502"@.len() == 3 && "502"@[0] == '5' && "502"@[1] == '0' && "502"@[2] == '2');
    }
    assert(cannot_begin_in("503"@, "bigquery query failed: "@)) by {
        reveal_strlit("503");
        assert("503"@.len() == 3 && "503"@[0] == '5' && "503"@[1] == '0' && "503"@[2] == '3');
    }
    assert(cannot_begin_in("504"@, "bigquery query failed: "@)) by {
        reveal_strlit("504");
        assert("504"@.len() == 3 && "504"@[0] == '5' && "504"@[1] == '0' && "504"@[2] == '4');
    }
    assert(cannot_begin_in("service unavailable"@, "bigquery query failed: "@)) by {
        reveal_strlit("service unavailable");
        assert("service unavailable"@.len() == 19 && "service unavailable"@[0] == 's' && "service unavailable"@[1] == 'e' && "service unavailable"@[2] == 'r');
    }
}

/// No text of the kind begins in what is said of a failed query.
proof fn lemma_query_front_begins_no_status()
    ensures
        cannot_begin_in("code: "@, "bigquery query failed: "@),
        cannot_begin_in("status code "@, "bigquery query failed: "@),
        cannot_begin_in("status: "@, "bigquery query failed: "@),
        cannot_begin_in("status "@, "bigquery query failed: "@),
        cannot_begin_in("http "@, "bigquery query failed: "@),
        cannot_begin_in("http status server error ("@, "bigquery query failed: "@),
{
    lemma_query_front();

    assert(cannot_begin_in("code: "@, "bigquery query failed: "@)) by {
        reveal_strlit("code: ");
        assert("code: "@.len() == 6 && "code: "@[0] == 'c' && "code: "@[1] == 'o' && "code: "@[2] == 'd');
    }
    assert(cannot_begin_in("status code "@, "bigquery query failed: "@)) by {
        reveal_strlit("status code ");
        assert("status code "@.len() == 12 && "status code "@[0] == 's' && "status code "@[1] == 't' && "status code "@[2] == 'a');
    }
    assert(cannot_begin_in("status: "@, "bigquery query failed: "@)) by {
        reveal_strlit("status: ");
        assert("status: "@.len() == 8 && "status: "@[0] == 's' && "status: "@[1] == 't' && "status: "@[2] == 'a');
    }
    assert(cannot_begin_in("status "@, "bigquery query failed: "@)) by {
        reveal_strlit("status ");
        assert("status "@.len() == 7 && "status "@[0] == 's' && "status "@[1] == 't' && "status "@[2] == 'a');
    }
    assert(cannot_begin_in("http "@, "bigquery query failed: "@)) by {
        reveal_strlit("http ");
        assert("http "@.len() == 5 && "http "@[0] == 'h' && "http "@[1] == 't' && "http "@[2] == 't');
    }
    assert(cannot_begin_in("http status server error ("@, "bigquery query failed: "@)) by {
        reveal_strlit("http status server error (");
        assert("http status server error ("@.len() == 26 && "http status server error ("@[0] == 'h' && "http status server error ("@[1] == 't' && "http status server error ("@[2] == 't');
    }
}

/// What is put in front of the cause of a failed query decides nothing: the
/// failure is worth a retry exactly where its cause is.
pub proof fn law_query_failure_goes_by_its_cause(cause: Seq<char>)
    ensures
        is_retryable("BigQuery query failed: "@ + cause) <==> is_retryable(cause),
{
    let front = "bigquery query failed: "@;
    let rest = ascii_lower(cause);
    lemma_query_front();
    lemma_query_front_begins_no_rejection();
    lemma_query_front_begins_no_transport();
    lemma_query_front_begins_no_status();
    lemma_lead_lengths();
    assert(ascii_lower("BigQuery query failed: "@ + cause) =~= front + rest);
    law_retryable_exactly("BigQuery query failed: "@ + cause);
    law_retryable_exactly(cause);
    lemma_only_in_rest(front, rest, "syntax"@);
    lemma_only_in_rest(front, rest, "invalid query"@);
    lemma_only_in_rest(front, rest, "not found"@);
    lemma_only_in_rest(front, rest, "does not exist"@);
    lemma_only_in_rest(front, rest, "unrecognized name"@);
    lemma_only_in_rest(front, rest, "authentication"@);
    lemma_only_in_rest(front, rest, "auth "@);
    lemma_only_in_rest(front, rest, "invalid_grant"@);
    lemma_only_in_rest(front, rest, "credential"@);
    lemma_only_in_rest(front, rest, "unauthorized"@);
    lemma_only_in_rest(front, rest, "permission"@);
    lemma_only_in_rest(front, rest, "access denied"@);
    lemma_only_in_rest(front, rest, "forbidden"@);
    lemma_only_in_rest(front, rest, "maximum_bytes_billed"@);
    lemma_only_in_rest(front, rest, "bytesbilledlimitexceeded"@);
    lemma_only_in_rest(front, rest, "bytes billed"@);
    lemma_only_in_rest(front, rest, "read-only guard"@);
    lemma_only_in_rest(front, rest, "connect"@);
    lemma_only_in_rest(front, rest, "timed out"@);
    lemma_only_in_rest(front, rest, "timeout"@);
    lemma_only_in_rest(front, rest, "broken pipe"@);
    lemma_only_in_rest(front, rest, "connection reset"@);
    lemma_only_in_rest(front, rest, "eof"@);
    lemma_only_in_rest(front, rest, "dns"@);
    lemma_only_in_rest(front, rest, "429"@);
    lemma_only_in_rest(front, rest, "too many requests"@);
    lemma_only_in_rest(front, rest, "rate limit"@);
    lemma_only_in_rest(front, rest, "ratelimitexceeded"@);
    lemma_only_in_rest(front, rest, "backenderror"@);
    lemma_only_in_rest(front, rest, "500"@);
    lemma_only_in_rest(front, rest, "502"@);
    lemma_only_in_rest(front, rest, "503"@);
    lemma_only_in_rest(front, rest, "504"@);
    lemma_only_in_rest(front, rest, "service unavailable"@);
    assert forall|i: int| #[trigger] status_code_at(front + rest, i) implies status_code_at(
        rest,
        i - front.len(),
    ) by {
        assert(i >= front.len()) by {
            if i < front.len() {
                assert((front + rest)[i] == front[i]);
            }
        }
        lemma_only_behind(front, rest, "code: "@, i - 6);
        lemma_only_behind(front, rest, "status code "@, i - 12);
        lemma_only_behind(front, rest, "status: "@, i - 8);
        lemma_only_behind(front, rest, "status "@, i - 7);
        lemma_only_behind(front, rest, "http "@, i - 5);
        lemma_only_behind(front, rest, "http status server error ("@, i - 26);
    }
    assert forall|i: int| #[trigger] status_code_at(rest, i) implies status_code_at(
        front + rest,
        i + front.len(),
    ) by {
        lemma_only_behind(front, rest, "code: "@, i + front.len() - 6);
        lemma_only_behind(front, rest, "status code "@, i + front.len() - 12);
        lemma_only_behind(front, rest, "status: "@, i + front.len() - 8);
        lemma_only_behind(front, rest, "status "@, i + front.len() - 7);
        lemma_only_behind(front, rest, "http "@, i + front.len() - 5);
        lemma_only_behind(front, rest, "http status server error ("@, i + front.len() - 26);
        assert(i > 0);
        assert((front + rest)[i + front.len() - 1] == rest[i - 1]);
    }
    if exists|i: int| #[trigger] status_code_at(front + rest, i) {
        let i = choose|i: int| #[trigger] status_code_at(front + rest, i);
        assert(status_code_at(rest, i - front.len()));
    }
    if exists|i: int| #[trigger] status_code_at(rest, i) {
        let i = choose|i: int| #[trigger] status_code_at(rest, i);
        assert(status_code_at(front + rest, i + front.len()));
    }
}

/// What is said of a failed dry run, in small letters, character by character.
proof fn lemma_dry_run_front()
    ensures
        ascii_lower("BigQuery dry run failed: "@) == "bigquery dry run failed: "@,
        "bigquery dry run failed: "@.len() == 25,
        "bigquery dry run failed: "@[0] == 'b',
        "bigquery dry run failed: "@[1] == 'i',
        "bigquery dry run failed: "@[2] == 'g',
        "bigquery dry run failed: "@[3] == 'q',
        "bigquery dry run failed: "@[4] == 'u',
        "bigquery dry run failed: "@[5] == 'e',
        "bigquery dry run failed: "@[6] == 'r',
        "bigquery dry run failed: "@[7] == 'y',
        "bigquery dry run failed: "@[8] == ' ',
        "bigquery dry run failed: "@[9] == 'd',
        "bigquery dry run failed: "@[10] == 'r',
        "bigquery dry run failed: "@[11] == 'y',
        "bigquery dry run failed: "@[12] == ' ',
        "bigquery dry run failed: "@[13] == 'r',
        "bigquery dry run failed: "@[14] == 'u',
        "bigquery dry run failed: "@[15] == 'n',
        "bigquery dry run failed: "@[16] == ' ',
        "bigquery dry run failed: "@[17] == 'f',
        "bigquery dry run failed: "@[18] == 'a',
        "bigquery dry run failed: "@[19] == 'i',
        "bigquery dry run failed: "@[20] == 'l',
        "bigquery dry run failed: "@[21] == 'e',
        "bigquery dry run failed: "@[22] == 'd',
        "bigquery dry run failed: "@[23] == ':',
        "bigquery dry run failed: "@[24] == ' ',
{
    reveal_strlit("BigQuery dry run failed: ");
    reveal_strlit("bigquery dry run failed: ");
    assert(ascii_lower("BigQuery dry run failed: "@) =~= "bigquery dry run failed: "@);
}

/// No text of the kind begins in what is said of a failed dry run.
proof fn lemma_dry_run_front_begins_no_rejection()
    ensures
        cannot_begin_in("syntax"@, "bigquery dry run failed: "@),
        cannot_begin_in("invalid query"@, "bigquery dry run failed: "@),
        cannot_begin_in("not found"@, "bigquery dry run failed: "@),
        cannot_begin_in("does not exist"@, "bigquery dry run failed: "@),
        cannot_begin_in("unrecognized name"@, "bigquery dry run failed: "@),
        cannot_begin_in("authentication"@, "bigquery dry run failed: "@),
        cannot_begin_in("auth "@, "bigquery dry run failed: "@),
        cannot_begin_in("invalid_grant"@, "bigquery dry run failed: "@),
        cannot_begin_in("credential"@, "bigquery dry run failed: "@),
        cannot_begin_in("unauthorized"@, "bigquery dry run failed: "@),
        cannot_begin_in("permission"@, "bigquery dry run failed: "@),
        cannot_begin_in("access denied"@, "bigquery dry run failed: "@),
        cannot_begin_in("forbidden"@, "bigquery dry run failed: "@),
        cannot_begin_in("maximum_bytes_billed"@, "bigquery dry run failed: "@),
        cannot_begin_in("bytesbilledlimitexceeded"@, "bigquery dry run failed: "@),
        cannot_begin_in("bytes billed"@, "bigquery dry run failed: "@),
        cannot_begin_in("read-only guard"@, "bigquery dry run failed: "@),
{
    lemma_dry_run_front();

    assert(cannot_begin_in("syntax"@, "bigquery dry run failed: "@)) by {
        reveal_strlit("syntax");
        assert("syntax"@.len() == 6 && "syntax"@[0] == 's' && "syntax"@[1] == 'y' && "syntax"@[2] == 'n');
    }
    assert(cannot_begin_in("invalid query"@, "bigquery dry run failed: "@)) by {
        reveal_strlit("invalid query");
        assert("invalid query"@.len() == 13 && "invalid query"@[0] == 'i' && "invalid query"@[1] == 'n' && "invalid query"@[2] == 'v');
    }
    assert(cannot_begin_in("not found"@, "bigquery dry run failed: "@)) by {
        reveal_strlit("not found");
        assert("not found"@.len() == 9 && "not found"@[0] == 'n' && "not found"@[1] == 'o' && "not found"@[2] == 't');
    }
    assert(cannot_begin_in("does not exist"@, "bigquery dry run failed: "@)) by {
        reveal_strlit("does not exist");
        assert("does not exist"@.len() == 14 && "does not exist"@[0] == 'd' && "does not exist"@[1] == 'o' && "does not exist"@[2] == 'e');
    }
    assert(cannot_begin_in("unrecognized name"@, "bigquery dry run failed: "@)) by {
        reveal_strlit("unrecognized name");
        assert("unrecognized name"@.len() == 17 && "unrecognized name"@[0] == 'u' && "unrecognized name"@[1] == 'n' && "unrecognized name"@[2] == 'r');
    }
    assert(cannot_begin_in("authentication"@, "bigquery dry run failed: "@)) by {
        reveal_strlit("authentication");
        assert("authentication"@.len() == 14 && "authentication"@[0] == 'a' && "authentication"@[1] == 'u' && "authentication"@[2] == 't');
    }
    assert(cannot_begin_in("auth "@, "bigquery dry run failed: "@)) by {
        reveal_strlit("auth ");
        assert("auth "@.len() == 5 && "auth "@[0] == 'a' && "auth "@[1] == 'u' && "auth "@[2] == 't');
    }
    assert(cannot_begin_in("invalid_grant"@, "bigquery dry run failed: "@)) by {
        reveal_strlit("invalid_grant");
        assert("invalid_grant"@.len() == 13 && "invalid_grant"@[0] == 'i' && "invalid_grant"@[1] == 'n' && "invalid_grant"@[2] == 'v');
    }
    assert(cannot_begin_in("credential"@, "bigquery dry run failed: "@)) by {
        reveal_strlit("credential");
        assert("credential"@.len() == 10 && "credential"@[0] == 'c' && "credential"@[1] == 'r' && "credential"@[2] == 'e');
    }
    assert(cannot_begin_in("unauthorized"@, "bigquery dry run failed: "@)) by {
        reveal_strlit("unauthorized");
        assert("unauthorized"@.len() == 12 && "unauthorized"@[0] == 'u' && "unauthorized"@[1] == 'n' && "unauthorized"@[2] == 'a');
    }
    assert(cannot_begin_in("permission"@, "bigquery dry run failed: "@)) by {
        reveal_strlit("permission");
        assert("permission"@.len() == 10 && "permission"@[0] == 'p' && "permission"@[1] == 'e' && "permission"@[2] == 'r');
    }
    assert(cannot_begin_in("access denied"@, "bigquery dry run failed: "@)) by {
        reveal_strlit("access denied");
        assert("access denied"@.len() == 13 && "access denied"@[0] == 'a' && "access denied"@[1] == 'c' && "access denied"@[2] == 'c');
    }
    assert(cannot_begin_in("forbidden"@, "bigquery dry run failed: "@)) by {
        reveal_strlit("forbidden");
        assert("forbidden"@.len() == 9 && "forbidden"@[0] == 'f' && "forbidden"@[1] == 'o' && "forbidden"@[2] == 'r');
    }
    assert(cannot_begin_in("maximum_bytes_billed"@, "bigquery dry run failed: "@)) by {
        reveal_strlit("maximum_bytes_billed");
        assert("maximum_bytes_billed"@.len() == 20 && "maximum_bytes_billed"@[0] == 'm' && "maximum_bytes_billed"@[1] == 'a' && "maximum_bytes_billed"@[2] == 'x');
    }
    assert(cannot_begin_in("bytesbilledlimitexceeded"@, "bigquery dry run failed: "@)) by {
        reveal_strlit("bytesbilledlimitexceeded");
        assert("bytesbilledlimitexceeded"@.len() == 24 && "bytesbilledlimitexceeded"@[0] == 'b' && "bytesbilledlimitexceeded"@[1] == 'y' && "bytesbilledlimitexceeded"@[2] == 't');
    }
    assert(cannot_begin_in("bytes billed"@, "bigquery dry run failed: "@)) by {
        reveal_strlit("bytes billed");
        assert("bytes billed"@.len() == 12 && "bytes billed"@[0] == 'b' && "bytes billed"@[1] == 'y' && "bytes billed"@[2] == 't');
    }
    assert(cannot_begin_in("read-only guard"@, "bigquery dry run failed: "@)) by {
        reveal_strlit("read-only guard");
        assert("read-only guard"@.len() == 15 && "read-only guard"@[0] == 'r' && "read-only guard"@[1] == 'e' && "read-only guard"@[2] == 'a');
    }
}

/// No text of the kind begins in what is said of a failed dry run.
proof fn lemma_dry_run_front_begins_no_transport()
    ensures
        cannot_begin_in("connect"@, "bigquery dry run failed: "@),
        cannot_begin_in("timed out"@, "bigquery dry run failed: "@),
        cannot_begin_in("timeout"@, "bigquery dry run failed: "@),
        cannot_begin_in("broken pipe"@, "bigquery dry run failed: "@),
        cannot_begin_in("connection reset"@, "bigquery dry run failed: "@),
        cannot_begin_in("eof"@, "bigquery dry run failed: "@),
        cannot_begin_in("dns"@, "bigquery dry run failed: "@),
        cannot_begin_in("429"@, "bigquery dry run failed: "@),
        cannot_begin_in("too many requests"@, "bigquery dry run failed: "@),
        cannot_begin_in("rate limit"@, "bigquery dry run failed: "@),
        cannot_begin_in("ratelimitexceeded"@, "bigquery dry run failed: "@),
        cannot_begin_in("backenderror"@, "bigquery dry run failed: "@),
        cannot_begin_in("500"@, "bigquery dry run failed: "@),
        cannot_begin_in("502"@, "bigquery dry run failed: "@),
        cannot_begin_in("503"@, "bigquery dry run failed: "@),
        cannot_begin_in("504"@, "bigquery dry run failed: "@),
        cannot_begin_in("service unavailable"@, "bigquery dry run failed: "@),
{
    lemma_dry_run_front();

    assert(cannot_begin_in("connect"@, "bigquery dry run failed: "@)) by {
        reveal_strlit("connect");
        assert("connect"@.len() == 7 && "connect"@[0] == 'c' && "connect"@[1] == 'o' && "connect"@[2] == 'n');
    }
    assert(cannot_begin_in("timed out"@, "bigquery dry run failed: "@)) by {
        reveal_strlit("timed out");
        assert("timed out"@.len() == 9 && "timed out"@[0] == 't' && "timed out"@[1] == 'i' && "timed out"@[2] == 'm');
    }
    assert(cannot_begin_in("timeout"@, "bigquery dry run failed: "@)) by {
        reveal_strlit("timeout");
        assert("timeout"@.len() == 7 && "timeout"@[0] == 't' && "timeout"@[1] == 'i' && "timeout"@[2] == 'm');
    }
    assert(cannot_begin_in("broken pipe"@, "bigquery dry run failed: "@)) by {
        reveal_strlit("broken pipe");
        assert("broken pipe"@.len() == 11 && "broken pipe"@[0] == 'b' && "broken pipe"@[1] == 'r' && "broken pipe"@[2] == 'o');
    }
    assert(cannot_begin_in("connection reset"@, "bigquery dry run failed: "@)) by {
        reveal_strlit("connection reset");
        assert("connection reset"@.len() == 16 && "connection reset"@[0] == 'c' && "connection reset"@[1] == 'o' && "connection reset"@[2] == 'n');
    }
    assert(cannot_begin_in("eof"@, "bigquery dry run failed: "@)) by {
        reveal_strlit("eof");
        assert("eof"@.len() == 3 && "eof"@[0] == 'e' && "eof"@[1] == 'o' && "eof"@[2] == 'f');
    }
    assert(cannot_begin_in("dns"@, "bigquery dry run failed: "@)) by {
        reveal_strlit("dns");
        assert("dns"@.len() == 3 && "dns"@[0] == 'd' && "dns"@[1] == 'n' && "dns"@[2] == 's');
    }
    assert(cannot_begin_in("429"@, "bigquery dry run failed: "@)) by {
        reveal_strlit("429");
        assert("429"@.len() == 3 && "429"@[0] == '4' && "429"@[1] == '2' && "429"@[2] == '9');
    }
    assert(cannot_begin_in("too many requests"@, "bigquery dry run failed: "@)) by {
        reveal_strlit("too many requests");
        assert("too many requests"@.len() == 17 && "too many requests"@[0] == 't' && "too many requests"@[1] == 'o' && "too many requests"@[2] == 'o');
    }
    assert(cannot_begin_in("rate limit"@, "bigquery dry run failed: "@)) by {
        reveal_strlit("rate limit");
        assert("rate limit"@.len() == 10 && "rate limit"@[0] == 'r' && "rate limit"@[1] == 'a' && "rate limit"@[2] == 't');
    }
    assert(cannot_begin_in("ratelimitexceeded"@, "bigquery dry run failed: "@)) by {
        reveal_strlit("ratelimitexceeded");
        assert("ratelimitexceeded"@.len() == 17 && "ratelimitexceeded"@[0] == 'r' && "ratelimitexceeded"@[1] == 'a' && "ratelimitexceeded"@[2] == 't');
    }
    assert(cannot_begin_in("backenderror"@, "bigquery dry run failed: "@)) by {
        reveal_strlit("backenderror");
        assert("backenderror"@.len() == 12 && "backenderror"@[0] == 'b' && "backenderror"@[1] == 'a' && "backenderror"@[2] == 'c');
    }
    assert(cannot_begin_in("500"@, "bigquery dry run failed: "@)) by {
        reveal_strlit("500");
        assert("500"@.len() == 3 && "500"@[0] == '5' && "500"@[1] == '0' && "500"@[2] == '0');
    }
    assert(cannot_begin_in("502"@, "bigquery dry run failed: "@)) by {
        reveal_strlit("502");
        assert("502"@.len() == 3 && "502"@[0] == '5' && "502"@[1] == '0' && "502"@[2] == '2');
    }
    assert(cannot_begin_in("503"@, "bigquery dry run failed: "@)) by {
        reveal_strlit("503");
        assert("503"@.len() == 3 && "503"@[0] == '5' && "503"@[1] == '0' && "503"@[2] == '3');
    }
    assert(cannot_begin_in("504"@, "bigquery dry run failed: "@)) by {
        reveal_strlit("504");
        assert("504"@.len() == 3 && "504"@[0] == '5' && "504"@[1] == '0' && "504"@[2] == '4');
    }
    assert(cannot_begin_in("service unavailable"@, "bigquery dry run failed: "@)) by {
        reveal_strlit("service unavailable");
        assert("service unavailable"@.len() == 19 && "service unavailable"@[0] == 's' && "service unavailable"@[1] == 'e' && "service unavailable"@[2] == 'r');
    }
}

/// No text of the kind begins in what is said of a failed dry run.
proof fn lemma_dry_run_front_begins_no_status()
    ensures
        cannot_begin_in("code: "@, "bigquery dry run failed: "@),
        cannot_begin_in("status code "@, "bigquery dry run failed: "@),
        cannot_begin_in("status: "@, "bigquery dry run failed: "@),
        cannot_begin_in("status "@, "bigquery dry run failed: "@),
        cannot_begin_in("http "@, "bigquery dry run failed: "@),
        cannot_begin_in("http status server error ("@, "bigquery dry run failed: "@),
{
    lemma_dry_run_front();

    assert(cannot_begin_in("code: "@, "bigquery dry run failed: "@)) by {
        reveal_strlit("code: ");
        assert("code: "@.len() == 6 && "code: "@[0] == 'c' && "code: "@[1] == 'o' && "code: "@[2] == 'd');
    }
    assert(cannot_begin_in("status code "@, "bigquery dry run failed: "@)) by {
        reveal_strlit("status code ");
        assert("status code "@.len() == 12 && "status code "@[0] == 's' && "status code "@[1] == 't' && "status code "@[2] == 'a');
    }
    assert(cannot_begin_in("status: "@, "bigquery dry run failed: "@)) by {
        reveal_strlit("status: ");
        assert("status: "@.len() == 8 && "status: "@[0] == 's' && "status: "@[1] == 't' && "status: "@[2] == 'a');
    }
    assert(cannot_begin_in("status "@, "bigquery dry run failed: "@)) by {
        reveal_strlit("status ");
        assert("status "@.len() == 7 && "status "@[0] == 's' && "status "@[1] == 't' && "status "@[2] == 'a');
    }
    assert(cannot_begin_in("http "@, "bigquery dry run failed: "@)) by {
        reveal_strlit("http ");
        assert("http "@.len() == 5 && "http "@[0] == 'h' && "http "@[1] == 't' && "http "@[2] == 't');
    }
    assert(cannot_begin_in("http status server error ("@, "bigquery dry run failed: "@)) by {
        reveal_strlit("http status server error (");
        assert("http status server error ("@.len() == 26 && "http status server error ("@[0] == 'h' && "http status server error ("@[1] == 't' && "http status server error ("@[2] == 't');
    }
}

/// What is put in front of the cause of a failed dry run decides nothing: the
/// failure is worth a retry exactly where its cause is.
pub proof fn law_dry_run_failure_goes_by_its_cause(cause: Seq<char>)
    ensures
        is_retryable("BigQuery dry run failed: "@ + cause) <==> is_retryable(cause),
{
    let front = "bigquery dry run failed: "@;
    let rest = ascii_lower(cause);
    lemma_dry_run_front();
    lemma_dry_run_front_begins_no_rejection();
    lemma_dry_run_front_begins_no_transport();
    lemma_dry_run_front_begins_no_status();
    lemma_lead_lengths();
    assert(ascii_lower("BigQuery dry run failed: "@ + cause) =~= front + rest);
    law_retryable_exactly("BigQuery dry run failed: "@ + cause);
    law_retryable_exactly(cause);
    lemma_only_in_rest(front, rest, "syntax"@);
    lemma_only_in_rest(front, rest, "invalid query"@);
    lemma_only_in_rest(front, rest, "not found"@);
    lemma_only_in_rest(front, rest, "does not exist"@);
    lemma_only_in_rest(front, rest, "unrecognized name"@);
    lemma_only_in_rest(front, rest, "authentication"@);
    lemma_only_in_rest(front, rest, "auth "@);
    lemma_only_in_rest(front, rest, "invalid_grant"@);
    lemma_only_in_rest(front, rest, "credential"@);
    lemma_only_in_rest(front, rest, "unauthorized"@);
    lemma_only_in_rest(front, rest, "permission"@);
    lemma_only_in_rest(front, rest, "access denied"@);
    lemma_only_in_rest(front, rest, "forbidden"@);
    lemma_only_in_rest(front, rest, "maximum_bytes_billed"@);
    lemma_only_in_rest(front, rest, "bytesbilledlimitexceeded"@);
    lemma_only_in_rest(front, rest, "bytes billed"@);
    lemma_only_in_rest(front, rest, "read-only guard"@);
    lemma_only_in_rest(front, rest, "connect"@);
    lemma_only_in_rest(front, rest, "timed out"@);
    lemma_only_in_rest(front, rest, "timeout"@);
    lemma_only_in_rest(front, rest, "broken pipe"@);
    lemma_only_in_rest(front, rest, "connection reset"@);
    lemma_only_in_rest(front, rest, "eof"@);
    lemma_only_in_rest(front, rest, "dns"@);
    lemma_only_in_rest(front, rest, "429"@);
    lemma_only_in_rest(front, rest, "too many requests"@);
    lemma_only_in_rest(front, rest, "rate limit"@);
    lemma_only_in_rest(front, rest, "ratelimitexceeded"@);
    lemma_only_in_rest(front, rest, "backenderror"@);
    lemma_only_in_rest(front, rest, "500"@);
    lemma_only_in_rest(front, rest, "502"@);
    lemma_only_in_rest(front, rest, "503"@);
    lemma_only_in_rest(front, rest, "504"@);
    lemma_only_in_rest(front, rest, "service unavailable"@);
    assert forall|i: int| #[trigger] status_code_at(front + rest, i) implies status_code_at(
        rest,
        i - front.len(),
    ) by {
        assert(i >= front.len()) by {
            if i < front.len() {
                assert((front + rest)[i] == front[i]);
            }
        }
        lemma_only_behind(front, rest, "code: "@, i - 6);
        lemma_only_behind(front, rest, "status code "@, i - 12);
        lemma_only_behind(front, rest, "status: "@, i - 8);
        lemma_only_behind(front, rest, "status "@, i - 7);
        lemma_only_behind(front, rest, "http "@, i - 5);
        lemma_only_behind(front, rest, "http status server error ("@, i - 26);
    }
    assert forall|i: int| #[trigger] status_code_at(rest, i) implies status_code_at(
        front + rest,
        i + front.len(),
    ) by {
        lemma_only_behind(front, rest, "code: "@, i + front.len() - 6);
        lemma_only_behind(front, rest, "status code "@, i + front.len() - 12);
        lemma_only_behind(front, rest, "status: "@, i + front.len() - 8);
        lemma_only_behind(front, rest, "status "@, i + front.len() - 7);
        lemma_only_behind(front, rest, "http "@, i + front.len() - 5);
        lemma_only_behind(front, rest, "http status server error ("@, i + front.len() - 26);
        assert(i > 0);
        assert((front + rest)[i + front.len() - 1] == rest[i - 1]);
    }
    if exists|i: int| #[trigger] status_code_at(front + rest, i) {
        let i = choose|i: int| #[trigger] status_code_at(front + rest, i);
        assert(status_code_at(rest, i - front.len()));
    }
    if exists|i: int| #[trigger] status_code_at(rest, i) {
        let i = choose|i: int| #[trigger] status_code_at(rest, i);
        assert(status_code_at(front + rest, i + front.len()));
    }
}

/// A failed query whose cause holds none of the texts that speak of the
/// transport, and gives no code from 500 to 599 as a status, is not worth a
/// retry.
pub proof fn law_plain_query_failure_is_final(cause: Seq<char>)
    requires
        !occurs_in(ascii_lower(cause), "connect"@),
        !occurs_in(ascii_lower(cause), "timed out"@),
        !occurs_in(ascii_lower(cause), "timeout"@),
        !occurs_in(ascii_lower(cause), "broken pipe"@),
        !occurs_in(ascii_lower(cause), "connection reset"@),
        !occurs_in(ascii_lower(cause), "eof"@),
        !occurs_in(ascii_lower(cause), "dns"@),
        !occurs_in(ascii_lower(cause), "429"@),
        !occurs_in(ascii_lower(cause), "too many requests"@),
        !occurs_in(ascii_lower(cause), "rate limit"@),
        !occurs_in(ascii_lower(cause), "ratelimitexceeded"@),
        !occurs_in(ascii_lower(cause), "backenderror"@),
        !occurs_in(ascii_lower(cause), "500"@),
        !occurs_in(ascii_lower(cause), "502"@),
        !occurs_in(ascii_lower(cause), "503"@),
        !occurs_in(ascii_lower(cause), "504"@),
        !occurs_in(ascii_lower(cause), "service unavailable"@),
        forall|i: int| !#[trigger] status_code_at(ascii_lower(cause), i),
    ensures
        !is_retryable("BigQuery query failed: "@ + cause),
{
    law_nothing_else_is_retryable(cause);
    law_query_failure_goes_by_its_cause(cause);
}

/// A message that says it timed out is a timeout, in any ASCII case. Any other
/// is a transport error where a retry is worth it, and else an error of the
/// query; no failure is a success.
pub proof fn law_failure_labels_exactly(message: Seq<char>)
    ensures
        occurs_in(ascii_lower(message), "timed out"@) || occurs_in(
            ascii_lower(message),
            "timeout"@,
        ) ==> failure_outcome(message) == Outcome::Timeout,
        !occurs_in(ascii_lower(message), "timed out"@) && !occurs_in(
            ascii_lower(message),
            "timeout"@,
        ) ==> failure_outcome(message) == (if is_retryable(message) {
            Outcome::TransportError
        } else {
            Outcome::BigQueryError
        }),
{
}

/// A reply that did not come in time, and a job that did not complete, are
/// timeouts.
pub proof fn law_late_replies_are_timeouts()
    ensures
        failure_outcome("BigQuery call timed out"@) == Outcome::Timeout,
        failure_outcome("BigQuery dry run timed out"@) == Outcome::Timeout,
        failure_outcome("BigQuery query timed out: job did not complete"@) == Outcome::Timeout,
{
    reveal_strlit("timed out");
    reveal_strlit("BigQuery call timed out");
    reveal_strlit("BigQuery dry run timed out");
    reveal_strlit("BigQuery query timed out: job did not complete");
    let a = ascii_lower("BigQuery call timed out"@);
    let b = ascii_lower("BigQuery dry run timed out"@);
    let c = ascii_lower("BigQuery query timed out: job did not complete"@);
    assert(a.subrange(14, 23) =~= "timed out"@);
    assert(occurs_at(a, "timed out"@, 14));
    assert(b.subrange(17, 26) =~= "timed out"@);
    assert(occurs_at(b, "timed out"@, 17));
    assert(c.subrange(15, 24) =~= "timed out"@);
    assert(occurs_at(c, "timed out"@, 15));
}

} // verus!
