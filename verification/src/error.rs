//! The structured error that crosses the boundary: a kind, a top-level
//! message, an ordered chain of cause messages, and an optional backtrace.
//! Text is carried as bytes, since a byte pointer and a byte count are what
//! the boundary layout transfers.
//!
//! Rendering follows the boundary's reporting format: the top-level message
//! is the head of the chain and is never prefixed; each cause after it is
//! appended as `"\n  caused by: <cause>"`, outermost first. A backtrace is
//! rendered as `"stacktrace: <text>"`, or as the empty string when none was
//! captured — its absence is not an error.

use vstd::prelude::*;

verus! {

/// Which of the boundary's failure families an error belongs to.
#[derive(Clone, Copy, PartialEq, Eq, Structural, Debug)]
pub enum ErrorKind {
    /// Input bytes were not valid text or were improperly terminated.
    TextEncoding,
    /// A wrapped internal operation reported its own structured failure.
    Domain,
    /// A wrapped internal operation aborted instead of returning a failure.
    Panic,
}

/// A structured error: message, cause chain, optional backtrace.
pub struct SmithError {
    /// The failure family.
    pub kind: ErrorKind,
    /// The top-level message, the head of the rendered chain.
    pub message: Vec<u8>,
    /// The cause messages, ordered from outermost to innermost.
    pub causes: Vec<Vec<u8>>,
    /// The captured backtrace text, if any.
    pub backtrace: Option<Vec<u8>>,
}

/// The bytes of `"\n  caused by: "`, put before every cause past the head.
pub open spec fn caused_by_prefix() -> Seq<u8> {
    seq![10u8, 32u8, 32u8, 99u8, 97u8, 117u8, 115u8, 101u8, 100u8, 32u8, 98u8, 121u8, 58u8, 32u8]
}

/// The bytes of `"stacktrace: "`, put before a captured backtrace.
pub open spec fn stacktrace_prefix() -> Seq<u8> {
    seq![115u8, 116u8, 97u8, 99u8, 107u8, 116u8, 114u8, 97u8, 99u8, 101u8, 58u8, 32u8]
}

/// The rendering of a cause chain: each cause in order, prefixed.
pub open spec fn rendered_tail(causes: Seq<Seq<u8>>) -> Seq<u8>
    decreases causes.len(),
{
    if causes.len() == 0 {
        Seq::empty()
    } else {
        caused_by_prefix() + causes[0] + rendered_tail(causes.skip(1))
    }
}

/// The full rendered message: the unprefixed head, then the cause chain.
pub open spec fn rendered_message(e: SmithError) -> Seq<u8> {
    e.message@ + rendered_tail(e.causes.deep_view())
}

/// The rendered backtrace: prefixed text when one was captured and is
/// nonempty, the empty string otherwise.
pub open spec fn rendered_backtrace(e: SmithError) -> Seq<u8> {
    match e.backtrace {
        Some(b) => if b@.len() == 0 {
            Seq::empty()
        } else {
            stacktrace_prefix() + b@
        },
        None => Seq::empty(),
    }
}

/// Appending one cause to a chain appends one prefixed rendering.
proof fn lemma_rendered_tail_push(causes: Seq<Seq<u8>>, c: Seq<u8>)
    ensures
        rendered_tail(causes.push(c)) == rendered_tail(causes) + caused_by_prefix() + c,
    decreases causes.len(),
{
    if causes.len() == 0 {
        assert(causes.push(c).skip(1) =~= Seq::<Seq<u8>>::empty());
        assert(causes.push(c)[0] == c);
        assert(rendered_tail(causes.push(c)) == caused_by_prefix() + c + rendered_tail(
            Seq::<Seq<u8>>::empty(),
        ));
        assert(rendered_tail(causes.push(c)) =~= rendered_tail(causes) + caused_by_prefix() + c);
    } else {
        assert(causes.push(c).skip(1) =~= causes.skip(1).push(c));
        lemma_rendered_tail_push(causes.skip(1), c);
        assert(rendered_tail(causes.push(c)) =~= rendered_tail(causes) + caused_by_prefix() + c);
    }
}

/// Appends the bytes of `b` to `out`.
fn append_bytes(out: &mut Vec<u8>, b: &Vec<u8>)
    ensures
        final(out)@ == old(out)@ + b@,
{
    let mut i: usize = 0;
    while i < b.len()
        invariant
            i <= b@.len(),
            out@ == old(out)@ + b@.take(i as int),
        decreases b@.len() - i,
    {
        out.push(b[i]);
        proof {
            assert(old(out)@ + b@.take(i as int + 1) =~= (old(out)@ + b@.take(i as int)).push(
                b@[i as int],
            ));
        }
        i = i + 1;
    }
    proof {
        assert(b@.take(b@.len() as int) =~= b@);
    }
}

/// A vector holding the bytes of `"\n  caused by: "`.
fn caused_by_prefix_bytes() -> (r: Vec<u8>)
    ensures
        r@ == caused_by_prefix(),
{
    let mut r: Vec<u8> = Vec::new();
    r.push(10u8);
    r.push(32u8);
    r.push(32u8);
    r.push(99u8);
    r.push(97u8);
    r.push(117u8);
    r.push(115u8);
    r.push(101u8);
    r.push(100u8);
    r.push(32u8);
    r.push(98u8);
    r.push(121u8);
    r.push(58u8);
    r.push(32u8);
    proof {
        assert(r@ =~= caused_by_prefix());
    }
    r
}

/// A vector holding the bytes of `"stacktrace: "`.
fn stacktrace_prefix_bytes() -> (r: Vec<u8>)
    ensures
        r@ == stacktrace_prefix(),
{
    let mut r: Vec<u8> = Vec::new();
    r.push(115u8);
    r.push(116u8);
    r.push(97u8);
    r.push(99u8);
    r.push(107u8);
    r.push(116u8);
    r.push(114u8);
    r.push(97u8);
    r.push(99u8);
    r.push(101u8);
    r.push(58u8);
    r.push(32u8);
    proof {
        assert(r@ =~= stacktrace_prefix());
    }
    r
}

/// Renders the error's message and cause chain into fresh bytes.
pub fn render_message(e: &SmithError) -> (out: Vec<u8>)
    ensures
        out@ == rendered_message(*e),
{
    let mut out: Vec<u8> = Vec::new();
    append_bytes(&mut out, &e.message);
    let prefix = caused_by_prefix_bytes();
    let ghost all_causes: Seq<Seq<u8>> = e.causes.deep_view();
    let mut i: usize = 0;
    while i < e.causes.len()
        invariant
            i <= e.causes@.len(),
            all_causes == e.causes.deep_view(),
            all_causes.len() == e.causes@.len(),
            forall|j: int| 0 <= j < all_causes.len() ==> all_causes[j] == e.causes@[j]@,
            prefix@ == caused_by_prefix(),
            out@ == e.message@ + rendered_tail(all_causes.take(i as int)),
        decreases e.causes@.len() - i,
    {
        append_bytes(&mut out, &prefix);
        append_bytes(&mut out, &e.causes[i]);
        proof {
            assert(all_causes.take(i as int + 1) =~= all_causes.take(i as int).push(
                all_causes[i as int],
            ));
            lemma_rendered_tail_push(all_causes.take(i as int), all_causes[i as int]);
            assert(out@ =~= e.message@ + rendered_tail(all_causes.take(i as int + 1)));
        }
        i = i + 1;
    }
    proof {
        assert(all_causes.take(all_causes.len() as int) =~= all_causes);
    }
    out
}

/// Renders the error's backtrace into fresh bytes: empty when none was
/// captured or the captured text is empty.
pub fn render_backtrace(e: &SmithError) -> (out: Vec<u8>)
    ensures
        out@ == rendered_backtrace(*e),
{
    match &e.backtrace {
        Some(b) => {
            if b.len() == 0 {
                Vec::new()
            } else {
                let mut out = stacktrace_prefix_bytes();
                append_bytes(&mut out, b);
                out
            }
        },
        None => Vec::new(),
    }
}

} // verus!
