//! Decoding of a stream that has been received, with a callback that is
//! handed every fragment in arrival order.

use crate::error::Error;
use crate::sse::decoder::{
    chunks_view, concat_texts, lemma_answer_is_fragments, stream_fragments, stream_outcome,
    strings_view, DecoderState, StreamDecoder,
};
use vstd::prelude::*;

verus! {

/// Whether `callback` has taken `text`: a call of it with that text has
/// returned.
pub open spec fn heard<F: Fn(&str)>(callback: F, text: Seq<char>) -> bool {
    exists|s: &str| s@ == text && #[trigger] call_ensures(callback, (s,), ())
}

/// Whether `callback` has taken every one of `texts`.
pub open spec fn heard_all<F: Fn(&str)>(callback: F, texts: Seq<Seq<char>>) -> bool {
    forall|i: int| 0 <= i < texts.len() ==> heard(callback, #[trigger] texts[i])
}

/// Whether `callback` has accepted `text`: a call of it with that text has
/// returned success.
pub open spec fn accepted<F: Fn(&str) -> Result<(), Error>>(callback: F, text: Seq<char>) -> bool {
    exists|s: &str, answer: Result<(), Error>|
        s@ == text && answer is Ok && #[trigger] call_ensures(callback, (s,), answer)
}

/// Whether `callback` has refused `text` with `failure`: a call of it with
/// that text has returned that failure.
pub open spec fn refused<F: Fn(&str) -> Result<(), Error>>(
    callback: F,
    text: Seq<char>,
    failure: Error,
) -> bool {
    exists|s: &str|
        s@ == text && #[trigger] call_ensures(callback, (s,), Err::<(), Error>(failure))
}

/// Whether `outcome` is what handing `texts` to `callback`, in order and
/// only as long as it accepts them, comes to: success where it accepted
/// them all, else the failure of the first that it refused, with all before
/// that one accepted.
pub open spec fn handed_on<F: Fn(&str) -> Result<(), Error>>(
    callback: F,
    texts: Seq<Seq<char>>,
    outcome: Result<(), Error>,
) -> bool {
    match outcome {
        Ok(_) => forall|i: int| 0 <= i < texts.len() ==> accepted(callback, #[trigger] texts[i]),
        Err(failure) => exists|k: int|
            0 <= k < texts.len() && #[trigger] refused(callback, texts[k], failure) && forall|
                i: int,
            | 0 <= i < k ==> accepted(callback, #[trigger] texts[i]),
    }
}

/// Hands each of `fragments` to `callback`, in order.
pub fn deliver<F: Fn(&str)>(fragments: &Vec<String>, callback: &F)
    requires
        forall|s: &str| call_requires(*callback, (s,)),
    ensures
        heard_all(*callback, strings_view(fragments@)),
{
    let mut i: usize = 0;
    while i < fragments.len()
        invariant
            i <= fragments.len(),
            forall|s: &str| call_requires(*callback, (s,)),
            forall|k: int| 0 <= k < i ==> heard(*callback, #[trigger] fragments@[k]@),
        decreases fragments.len() - i,
    {
        let fragment = fragments[i].as_str();
        callback(fragment);
        assert(call_ensures(*callback, (fragment,), ()));
        i += 1;
    }
    assert forall|k: int| 0 <= k < strings_view(fragments@).len() implies heard(
        *callback,
        #[trigger] strings_view(fragments@)[k],
    ) by {
        assert(heard(*callback, fragments@[k]@));
    }
}

/// Hands each of `fragments` to `callback`, in order, and stops at the
/// first that it refuses: the failure of that call is the result, and no
/// later fragment is handed on.
pub fn deliver_while_accepted<F: Fn(&str) -> Result<(), Error>>(
    fragments: &Vec<String>,
    callback: &F,
) -> (r: Result<(), Error>)
    requires
        forall|s: &str| call_requires(*callback, (s,)),
    ensures
        handed_on(*callback, strings_view(fragments@), r),
{
    let ghost texts = strings_view(fragments@);
    let mut i: usize = 0;
    while i < fragments.len()
        invariant
            i <= fragments.len(),
            texts == strings_view(fragments@),
            forall|s: &str| call_requires(*callback, (s,)),
            forall|k: int| 0 <= k < i ==> accepted(*callback, #[trigger] texts[k]),
        decreases fragments.len() - i,
    {
        let fragment = fragments[i].as_str();
        let answer = callback(fragment);
        let ghost given = answer;
        assert(call_ensures(*callback, (fragment,), given));
        assert(texts[i as int] == fragment@);
        match answer {
            Ok(_) => {
                assert(accepted(*callback, texts[i as int]));
            },
            Err(failure) => {
                assert(given == Err::<(), Error>(failure));
                assert(refused(*callback, texts[i as int], failure));
                return Err(failure);
            },
        }
        i += 1;
    }
    Ok(())
}

/// A callback that has taken two groups of texts has taken them all.
proof fn lemma_heard_both<F: Fn(&str)>(callback: F, first: Seq<Seq<char>>, second: Seq<Seq<char>>)
    requires
        heard_all(callback, first),
        heard_all(callback, second),
    ensures
        heard_all(callback, first + second),
{
    let all = first + second;
    assert forall|i: int| 0 <= i < all.len() implies heard(callback, #[trigger] all[i]) by {
        if i < first.len() {
            assert(all[i] == first[i]);
        } else {
            assert(all[i] == second[i - first.len()]);
        }
    }
}

/// Decodes a stream that arrived as `chunks` and then ended. Each fragment
/// is handed to `callback`, if there is one, as soon as the chunk that
/// completes its line is taken in: one call for one fragment, in arrival
/// order. Returns the fragments one after the other.
pub fn parse_sse_stream<F: Fn(&str)>(chunks: &Vec<Vec<u8>>, callback: Option<F>) -> (r: Result<
    String,
    Error,
>)
    requires
        callback matches Some(f) ==> forall|s: &str| call_requires(f, (s,)),
    ensures
        r matches Ok(answer) && answer@ == stream_outcome(None, chunks_view(chunks@)).answer
            && answer@ == concat_texts(stream_fragments(None, chunks_view(chunks@))),
        callback matches Some(f) ==> heard_all(f, stream_fragments(None, chunks_view(chunks@))),
{
    let ghost all = chunks_view(chunks@);
    let ghost start = DecoderState::initial(None);
    let ghost mut done: Seq<Seq<char>> = Seq::empty();
    let mut decoder = StreamDecoder::new(None);
    let mut i: usize = 0;
    proof {
        assert(all.skip(0) =~= all);
        assert(done + start.emitted_all(all) =~= start.emitted_all(all));
    }
    while i < chunks.len()
        invariant
            i <= chunks.len(),
            all == chunks_view(chunks@),
            callback matches Some(f) ==> forall|s: &str| call_requires(f, (s,)),
            callback matches Some(f) ==> heard_all(f, done),
            decoder@.feed_all(all.skip(i as int)) == start.feed_all(all),
            done + decoder@.emitted_all(all.skip(i as int)) == start.emitted_all(all),
        decreases chunks.len() - i,
    {
        let ghost rest = all.skip(i as int);
        let ghost before = decoder@;
        proof {
            assert(rest[0] == chunks@[i as int]@);
            assert(rest.skip(1) =~= all.skip(i + 1));
        }
        let fragments = decoder.push_chunk(chunks[i].as_slice());
        match &callback {
            Some(f) => {
                deliver(&fragments, f);
                proof {
                    lemma_heard_both(*f, done, strings_view(fragments@));
                }
            },
            None => {},
        }
        proof {
            assert((done + strings_view(fragments@)) + decoder@.emitted_all(rest.skip(1)) =~= done
                + (before.emitted(rest[0]) + decoder@.emitted_all(rest.skip(1))));
            done = done + strings_view(fragments@);
        }
        i += 1;
    }
    proof {
        assert(done + Seq::<Seq<char>>::empty() =~= done);
        lemma_answer_is_fragments(None, all);
    }
    let (last, acc) = decoder.finish();
    match &callback {
        Some(f) => {
            deliver(&last, f);
            proof {
                lemma_heard_both(*f, done, strings_view(last@));
            }
        },
        None => {},
    }
    let (answer, _) = acc.into_parts();
    Ok(answer)
}

/// Decodes a chat-completion stream that arrived as `chunks` and then
/// ended, handing each fragment to `callback` in arrival order. Returns the
/// fragments one after the other.
pub fn parse_chat_completion_sse<F: Fn(&str)>(chunks: &Vec<Vec<u8>>, callback: F) -> (r: Result<
    String,
    Error,
>)
    requires
        forall|s: &str| call_requires(callback, (s,)),
    ensures
        r matches Ok(answer) && answer@ == stream_outcome(None, chunks_view(chunks@)).answer
            && answer@ == concat_texts(stream_fragments(None, chunks_view(chunks@))),
        heard_all(callback, stream_fragments(None, chunks_view(chunks@))),
{
    parse_sse_stream(chunks, Some(callback))
}

} // verus!
