//! Captive-portal name resolution: build a response that answers every
//! query with the portal's own address, so that any lookup on the access
//! point's network lands on the badge.
//!
//! Only the response construction lives here; the socket loop that receives
//! queries and sends the answers back is the embedder's.

use vstd::prelude::*;

verus! {

/// Minimum byte length of a query worth answering: a 12-byte header plus at
/// least one byte of question.
pub const MIN_DNS_QUERY_LEN: usize = 13;

/// The position just past a name starting at `pos`: labels are skipped one
/// at a time until the terminating zero, and a compression pointer (`0xC0`
/// prefix) ends the name after two bytes.  A truncated name runs past the
/// end of the message, and the returned position is then past `q.len()`.
pub open spec fn skip_name(q: Seq<u8>, pos: int) -> int
    decreases q.len() - pos,
{
    if pos < 0 || pos >= q.len() {
        pos
    } else {
        let label_len = q[pos] as int;
        if label_len == 0 {
            pos + 1
        } else if label_len >= 0xC0 {
            pos + 2
        } else if pos + 1 + label_len >= q.len() {
            pos + 1 + label_len
        } else {
            skip_name(q, pos + 1 + label_len)
        }
    }
}

/// The position just past `n` questions starting at `pos`: each question is
/// a name followed by two-byte type and class fields.
pub open spec fn question_end(q: Seq<u8>, pos: int, n: int) -> int
    decreases n,
{
    if n <= 0 {
        pos
    } else {
        question_end(q, skip_name(q, pos) + 4, n - 1)
    }
}

/// The question count, big-endian, from the header.
pub open spec fn spec_qdcount(q: Seq<u8>) -> int {
    q[4] * 256 + q[5]
}

/// The response header: the query's transaction id; flags marking an
/// authoritative response with the query's recursion-desired bit echoed and
/// no error; one answer per question; nothing else.
pub open spec fn response_header(q: Seq<u8>) -> Seq<u8> {
    seq![
        q[0],
        q[1],
        (0x84u8 | (q[2] & 0x01u8)),
        0u8,
        q[4],
        q[5],
        q[4],
        q[5],
        0u8,
        0u8,
        0u8,
        0u8,
    ]
}

/// One answer: a pointer to the first question's name, type A, class IN, a
/// 60-second lifetime, and the portal address 192.168.4.1.
pub open spec fn answer_record() -> Seq<u8> {
    seq![
        0xC0u8,
        0x0Cu8,
        0x00u8,
        0x01u8,
        0x00u8,
        0x01u8,
        0x00u8,
        0x00u8,
        0x00u8,
        0x3Cu8,
        0x00u8,
        0x04u8,
        192u8,
        168u8,
        4u8,
        1u8,
    ]
}

/// `n` answer records, back to back.
pub open spec fn answer_records(n: int) -> Seq<u8>
    decreases n,
{
    if n <= 0 {
        Seq::empty()
    } else {
        answer_records(n - 1) + answer_record()
    }
}

/// The full response to `q`, or `None` when `q` is malformed: shorter than a
/// header, without questions, or with a question section that runs past the
/// end of the message.
pub open spec fn spec_dns_response(q: Seq<u8>) -> Option<Seq<u8>> {
    if q.len() < 12 {
        None
    } else {
        let qd = spec_qdcount(q);
        if qd == 0 {
            None
        } else {
            let end = question_end(q, 12, qd);
            if end > q.len() {
                None
            } else {
                Some(response_header(q) + q.subrange(12, end) + answer_records(qd))
            }
        }
    }
}

proof fn lemma_skip_name_ge(q: Seq<u8>, pos: int)
    ensures
        skip_name(q, pos) >= pos,
    decreases q.len() - pos,
{
    if 0 <= pos < q.len() {
        let label_len = q[pos] as int;
        if label_len != 0 && label_len < 0xC0 && pos + 1 + label_len < q.len() {
            lemma_skip_name_ge(q, pos + 1 + label_len);
        }
    }
}

proof fn lemma_question_end_ge(q: Seq<u8>, pos: int, n: int)
    ensures
        question_end(q, pos, n) >= if n <= 0 {
            pos
        } else {
            skip_name(q, pos) + 4
        },
        question_end(q, pos, n) >= pos,
    decreases n,
{
    lemma_skip_name_ge(q, pos);
    if n > 0 {
        lemma_question_end_ge(q, skip_name(q, pos) + 4, n - 1);
    }
}

proof fn lemma_question_end_step(q: Seq<u8>, pos: int, k: int)
    requires
        k >= 0,
    ensures
        question_end(q, pos, k + 1) == skip_name(q, question_end(q, pos, k)) + 4,
    decreases k,
{
    reveal_with_fuel(question_end, 2);
    if k > 0 {
        lemma_question_end_step(q, skip_name(q, pos) + 4, k - 1);
    }
}

proof fn lemma_question_end_split(q: Seq<u8>, pos: int, a: int, b: int)
    requires
        a >= 0,
        b >= 0,
    ensures
        question_end(q, pos, a + b) == question_end(q, question_end(q, pos, a), b),
    decreases a,
{
    if a > 0 {
        lemma_question_end_split(q, skip_name(q, pos) + 4, a - 1, b);
    }
}

/// Skip one name, as the message parser walks it.
fn skip_name_exec(query: &[u8], start: usize) -> (end: usize)
    requires
        start <= query@.len(),
        query@.len() <= usize::MAX - 300,
    ensures
        end as int == skip_name(query@, start as int),
        end <= query@.len() + 256,
{
    let n: usize = query.len();
    let mut pos: usize = start;
    while pos < n
        invariant
            pos <= n,
            n == query@.len(),
            n <= usize::MAX - 300,
            skip_name(query@, start as int) == skip_name(query@, pos as int),
        decreases n - pos,
    {
        let label_len = query[pos];
        if label_len == 0 {
            return pos + 1;
        }
        if label_len >= 0xC0 {
            return pos + 2;
        }
        let next = pos + 1 + (label_len as usize);
        if next >= n {
            return next;
        }
        pos = next;
    }
    pos
}

/// Build the response to one query, answering every question with the
/// portal address.  Returns `None` exactly when the query is malformed: too
/// short for a header, no questions, or a question section that runs past
/// the end of the message.
pub fn build_response(query: &[u8]) -> (response: Option<Vec<u8>>)
    requires
        query@.len() <= usize::MAX - 300,
    ensures
        match response {
            Some(r) => {
                &&& spec_dns_response(query@) is Some
                &&& r@ == spec_dns_response(query@).unwrap()
            },
            None => spec_dns_response(query@) is None,
        },
{
    let n: usize = query.len();
    if n < 12 {
        return None;
    }
    let qd: u32 = (query[4] as u32) * 256 + (query[5] as u32);
    if qd == 0 {
        return None;
    }

    // Find the end of the question section so it can be copied verbatim.
    let mut pos: usize = 12;
    let mut k: u32 = 0;
    while k < qd
        invariant
            12 <= pos <= n,
            n == query@.len(),
            n <= usize::MAX - 300,
            n >= 12,
            k <= qd,
            qd == spec_qdcount(query@),
            pos as int == question_end(query@, 12, k as int),
        decreases qd - k,
    {
        let name_end = skip_name_exec(query, pos);
        let next = name_end + 4;
        proof {
            lemma_skip_name_ge(query@, pos as int);
            lemma_question_end_step(query@, 12, k as int);
        }
        if next > n {
            proof {
                lemma_question_end_split(query@, 12, k as int + 1, qd - (k as int + 1));
                lemma_question_end_ge(query@, next as int, qd - (k as int + 1));
            }
            return None;
        }
        pos = next;
        k += 1;
    }

    // Header: copy the id, answer authoritatively echoing the
    // recursion-desired bit, one answer per question.
    let mut resp: Vec<u8> = Vec::new();
    resp.push(query[0]);
    resp.push(query[1]);
    resp.push(0x84 | (query[2] & 0x01));
    resp.push(0x00);
    resp.push(query[4]);
    resp.push(query[5]);
    resp.push(query[4]);
    resp.push(query[5]);
    resp.push(0);
    resp.push(0);
    resp.push(0);
    resp.push(0);
    proof {
        assert(resp@ =~= response_header(query@));
    }

    // Question section, verbatim.
    let mut i: usize = 12;
    while i < pos
        invariant
            12 <= i <= pos <= n,
            n == query@.len(),
            resp@ == response_header(query@) + query@.subrange(12, i as int),
        decreases pos - i,
    {
        resp.push(query[i]);
        proof {
            assert(resp@ =~= response_header(query@) + query@.subrange(12, i + 1));
        }
        i += 1;
    }

    // One answer per question, each pointing back at the first question's
    // name.  Virtually every real query holds exactly one question.
    let ghost body = response_header(query@) + query@.subrange(12, pos as int);
    let mut a: u32 = 0;
    while a < qd
        invariant
            a <= qd,
            body == response_header(query@) + query@.subrange(12, pos as int),
            resp@ == body + answer_records(a as int),
        decreases qd - a,
    {
        resp.push(0xC0);
        resp.push(0x0C);
        resp.push(0x00);
        resp.push(0x01);
        resp.push(0x00);
        resp.push(0x01);
        resp.push(0x00);
        resp.push(0x00);
        resp.push(0x00);
        resp.push(0x3C);
        resp.push(0x00);
        resp.push(0x04);
        resp.push(192);
        resp.push(168);
        resp.push(4);
        resp.push(1);
        proof {
            assert(resp@ =~= body + answer_records(a as int + 1));
        }
        a += 1;
    }

    Some(resp)
}

} // verus!
