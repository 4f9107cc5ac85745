//! Decisions of the tokenizer around the native calls: which tokens a
//! detokenization keeps, and how native counts become results.

use vstd::prelude::*;
use crate::error::InferenceError;
use vstd::string::StringSliceAdditionalSpecFns;
use crate::text::{concat2, int_decimal, nat_decimal, push_i64, push_u64};

verus! {

/// Token ids from this value up are the model's special control tokens.
pub const FIRST_CONTROL_TOKEN: i32 = 151643;

/// Whether detokenization with special tokens removed keeps `t`: it is
/// neither the end nor the beginning token, does not end generation, and is
/// below the control-token range.
pub open spec fn keeps(t: i32, eos: i32, bos: i32, eog: bool) -> bool {
    t != eos && t != bos && !eog && t < FIRST_CONTROL_TOKEN
}

/// The tokens that detokenization keeps, in order.
pub open spec fn kept_tokens(tokens: Seq<i32>, eos: i32, bos: i32, eog: Seq<bool>) -> Seq<i32>
    decreases tokens.len(),
{
    if tokens.len() == 0 {
        Seq::empty()
    } else {
        let rest = kept_tokens(tokens.drop_last(), eos, bos, eog.subrange(0, tokens.len() - 1));
        if keeps(tokens.last(), eos, bos, eog[tokens.len() - 1]) {
            rest.push(tokens.last())
        } else {
            rest
        }
    }
}

/// What detokenization keeps of a token sequence: no token of the result is
/// the end or beginning token or lies in the control-token range from
/// 151643 up; every token of the result comes from the input; and every
/// input token that is none of these and does not end generation is in the
/// result.  The result is never longer than the input.
pub proof fn lemma_kept_tokens(tokens: Seq<i32>, eos: i32, bos: i32, eog: Seq<bool>)
    requires
        eog.len() == tokens.len(),
    ensures
        kept_tokens(tokens, eos, bos, eog).len() <= tokens.len(),
        forall|j: int| 0 <= j < kept_tokens(tokens, eos, bos, eog).len() ==> {
            let k = #[trigger] kept_tokens(tokens, eos, bos, eog)[j];
            &&& k < 151643
            &&& k != eos
            &&& k != bos
            &&& tokens.contains(k)
        },
        forall|i: int|
            0 <= i < tokens.len() && tokens[i] < 151643 && tokens[i] != eos && tokens[i] != bos
                && !eog[i] ==> kept_tokens(tokens, eos, bos, eog).contains(#[trigger] tokens[i]),
    decreases tokens.len(),
{
    if tokens.len() > 0 {
        let n = tokens.len() - 1;
        let p = tokens.drop_last();
        let pe = eog.subrange(0, n as int);
        lemma_kept_tokens(p, eos, bos, pe);
        let rest = kept_tokens(p, eos, bos, pe);
        let all = kept_tokens(tokens, eos, bos, eog);
        assert forall|j: int| 0 <= j < all.len() implies {
            let k = #[trigger] all[j];
            &&& k < 151643
            &&& k != eos
            &&& k != bos
            &&& tokens.contains(k)
        } by {
            if j < rest.len() {
                assert(all[j] == rest[j]);
                let w = choose|x: int| 0 <= x < p.len() && p[x] == rest[j];
                assert(tokens[w] == p[w]);
            } else {
                assert(all[j] == tokens[n as int]);
            }
        }
        assert forall|i: int|
            0 <= i < tokens.len() && tokens[i] < 151643 && tokens[i] != eos && tokens[i] != bos
                && !eog[i] implies all.contains(#[trigger] tokens[i]) by {
            if i < n {
                assert(p[i] == tokens[i]);
                assert(pe[i] == eog[i]);
                assert(rest.contains(p[i]));
                let w = choose|x: int| 0 <= x < rest.len() && rest[x] == p[i];
                assert(all[w] == rest[w]);
            } else {
                assert(all[all.len() - 1] == tokens[i]);
            }
        }
    }
}

/// The tokens that a detokenization with special tokens removed keeps:
/// `eog[i]` says whether `tokens[i]` ends generation.
pub fn filter_special_tokens(tokens: &[i32], eos: i32, bos: i32, eog: &[bool]) -> (r: Vec<i32>)
    requires
        eog@.len() == tokens@.len(),
    ensures
        r@ == kept_tokens(tokens@, eos, bos, eog@),
        forall|j: int| 0 <= j < r@.len() ==> #[trigger] r@[j] < 151643 && r@[j] != eos && r@[j]
            != bos,
{
    proof {
        lemma_kept_tokens(tokens@, eos, bos, eog@);
    }
    let mut r: Vec<i32> = Vec::new();
    let mut i: usize = 0;
    while i < tokens.len()
        invariant
            i <= tokens@.len(),
            eog@.len() == tokens@.len(),
            r@ == kept_tokens(tokens@.subrange(0, i as int), eos, bos, eog@.subrange(0, i as int)),
        decreases tokens@.len() - i,
    {
        proof {
            let ts = tokens@.subrange(0, i + 1);
            let es = eog@.subrange(0, i + 1);
            assert(ts.drop_last() =~= tokens@.subrange(0, i as int));
            assert(es.subrange(0, i as int) =~= eog@.subrange(0, i as int));
            assert(ts.last() == tokens@[i as int]);
            assert(es[i as int] == eog@[i as int]);
        }
        let t: i32 = tokens[i];
        if t != eos && t != bos && !eog[i] && t < FIRST_CONTROL_TOKEN {
            r.push(t);
        }
        i = i + 1;
    }
    proof {
        assert(tokens@.subrange(0, tokens@.len() as int) =~= tokens@);
        assert(eog@.subrange(0, eog@.len() as int) =~= eog@);
    }
    r
}

/// What a detokenization comes down to.
#[derive(Debug)]
pub enum DetokenizeStep {
    /// The text is empty: there is nothing to decode.
    Empty,
    /// The native detokenizer decodes these tokens, keeping special tokens as
    /// they are and rendering them as text when `unparse_special` is set.
    Native { tokens: Vec<i32>, unparse_special: bool },
}

/// What detokenizing `tokens` comes down to.  No tokens give the empty text.
/// With special tokens removed, the tokens kept (`eog[i]` telling whether
/// `tokens[i]` ends generation) are decoded as they are, or give the empty
/// text when none is kept; otherwise the tokens are decoded as they are,
/// with `unparse_special` as asked.
pub fn detokenize_step(
    tokens: &[i32],
    remove_special: bool,
    unparse_special: bool,
    eos: i32,
    bos: i32,
    eog: &[bool],
) -> (r: DetokenizeStep)
    requires
        remove_special && tokens@.len() > 0 ==> eog@.len() == tokens@.len(),
    ensures
        tokens@.len() == 0 ==> r is Empty,
        tokens@.len() > 0 && remove_special ==> if kept_tokens(tokens@, eos, bos, eog@).len()
            == 0 {
            r is Empty
        } else {
            (r matches DetokenizeStep::Native { tokens: t, unparse_special: u } && t@
                == kept_tokens(tokens@, eos, bos, eog@) && !u)
        },
        tokens@.len() > 0 && !remove_special ==> (r matches DetokenizeStep::Native {
            tokens: t,
            unparse_special: u,
        } && t@ == tokens@ && u == unparse_special),
{
    if tokens.len() == 0 {
        return DetokenizeStep::Empty;
    }
    if remove_special {
        let kept = filter_special_tokens(tokens, eos, bos, eog);
        if kept.len() == 0 {
            DetokenizeStep::Empty
        } else {
            DetokenizeStep::Native { tokens: kept, unparse_special: false }
        }
    } else {
        let mut all: Vec<i32> = Vec::new();
        all.extend_from_slice(tokens);
        DetokenizeStep::Native { tokens: all, unparse_special }
    }
}

/// Whether `p` is where the first zero byte of `bytes` stands.
pub open spec fn first_zero_at(bytes: Seq<u8>, p: int) -> bool {
    &&& 0 <= p < bytes.len()
    &&& bytes[p] == 0
    &&& forall|i: int| 0 <= i < p ==> bytes[i] != 0
}

/// Whether `text` can be handed to the native tokenizer as a C string: it
/// holds no NUL byte.  Otherwise the tokenization fails, naming the byte
/// position of the first NUL.
pub fn check_c_text(text: &str) -> (r: Result<(), InferenceError>)
    ensures
        r is Ok <==> forall|i: int| 0 <= i < text.spec_bytes().len() ==> text.spec_bytes()[i] != 0,
        r is Err ==> exists|p: int|
            first_zero_at(text.spec_bytes(), p) && (r matches Err(
                InferenceError::TokenizationFailed(m),
            ) && m@ == "nul byte found in provided data at position: "@ + nat_decimal(p as nat)),
{
    let bytes: &[u8] = text.as_bytes();
    let mut i: usize = 0;
    while i < bytes.len()
        invariant
            bytes@ == text.spec_bytes(),
            i <= bytes@.len(),
            forall|j: int| 0 <= j < i ==> bytes@[j] != 0,
        decreases bytes@.len() - i,
    {
        if bytes[i] == 0 {
            let mut m = String::from_str("nul byte found in provided data at position: ");
            push_u64(&mut m, i as u64);
            assert(first_zero_at(text.spec_bytes(), i as int));
            return Err(InferenceError::TokenizationFailed(m));
        }
        i = i + 1;
    }
    Ok(())
}

/// What the native tokenizer's count `n` for the buffer `buf` comes to: the
/// first `n` tokens (all of them when `n` is larger), or, when `n` is
/// negative, a failure naming the `-n` tokens that would have been needed.
pub fn tokenize_result(n: i32, buf: Vec<i32>) -> (r: Result<Vec<i32>, InferenceError>)
    requires
        n > i32::MIN,
    ensures
        n >= 0 && n <= buf@.len() ==> (r matches Ok(t) && t@ == buf@.subrange(0, n as int)),
        n >= 0 && n > buf@.len() ==> (r matches Ok(t) && t@ == buf@),
        n < 0 ==> (r matches Err(InferenceError::TokenizationFailed(m)) && m@
            == "Tokenization failed, need "@ + int_decimal(-n) + " tokens"@),
{
    if n < 0 {
        let mut m = String::from_str("Tokenization failed, need ");
        push_i64(&mut m, -(n as i64));
        m.append(" tokens");
        Err(InferenceError::TokenizationFailed(m))
    } else {
        let mut buf = buf;
        if (n as usize) < buf.len() {
            buf.truncate(n as usize);
        }
        Ok(buf)
    }
}

/// What the native detokenizer's count `n` comes to: the number of bytes of
/// text to take, or a failure when it is negative.
pub fn detokenize_result(n: i32) -> (r: Result<usize, InferenceError>)
    ensures
        n >= 0 ==> r == Ok::<usize, InferenceError>(n as usize),
        n < 0 ==> (r matches Err(InferenceError::TokenizationFailed(m)) && m@
            == "Detokenization failed"@),
{
    if n < 0 {
        Err(InferenceError::TokenizationFailed(String::from_str("Detokenization failed")))
    } else {
        Ok(n as usize)
    }
}

} // verus!
