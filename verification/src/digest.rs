//! An order-dependent digest of what a compiler produced.
//!
//! Two builds that agree in the digest compiled the corpus to the same bytes, as far as a digest
//! can tell.

use vstd::prelude::*;

verus! {

/// The digest of nothing.
pub const DIGEST_SEED: u64 = 0xcbf2_9ce4_8422_2325;

/// The factor that every byte multiplies the digest by.
pub const DIGEST_FACTOR: u64 = 0x0100_0000_01b3;

/// One more than the largest digest.
pub open spec fn digest_modulus() -> int {
    0x1_0000_0000_0000_0000
}

/// The digest after one more byte.
pub open spec fn digest_step(acc: u64, byte: u8) -> u64 {
    (((acc ^ (byte as u64)) * DIGEST_FACTOR) % digest_modulus()) as u64
}

/// The digest after `bytes`, taken from first to last.
pub open spec fn digest_of(acc: u64, bytes: Seq<u8>) -> u64
    decreases bytes.len(),
{
    if bytes.len() == 0 {
        acc
    } else {
        digest_step(digest_of(acc, bytes.drop_last()), bytes.last())
    }
}

/// Takes `bytes` into the digest.
pub fn digest(acc: &mut u64, bytes: &[u8])
    ensures
        *final(acc) == digest_of(*old(acc), bytes@),
{
    let mut i: usize = 0;
    while i < bytes.len()
        invariant
            i <= bytes@.len(),
            *acc == digest_of(*old(acc), bytes@.take(i as int)),
        decreases bytes@.len() - i,
    {
        assert(bytes@.take(i + 1).drop_last() =~= bytes@.take(i as int));
        *acc = (*acc ^ (bytes[i] as u64)).wrapping_mul(DIGEST_FACTOR);
        i = i + 1;
    }
    assert(bytes@.take(i as int) =~= bytes@);
}

/// What came of one compile.
#[derive(Debug)]
pub enum Outcome {
    /// The script and, where there is one, the style sheet that the compiler produced.
    Compiled { js: Vec<u8>, css: Option<Vec<u8>> },
    /// The compiler gave an error.
    Failed,
}

/// What a compile that failed contributes to the digest: the bytes of `<err>`.
pub open spec fn failure_mark() -> Seq<u8> {
    seq![0x3c, 0x65, 0x72, 0x72, 0x3e]
}

impl Outcome {
    /// The bytes that this outcome contributes to the digest.
    pub open spec fn bytes(self) -> Seq<u8> {
        match self {
            Outcome::Compiled { js, css: Some(css) } => js@ + css@,
            Outcome::Compiled { js, css: None } => js@,
            Outcome::Failed => failure_mark(),
        }
    }
}

/// Takes the outcome of one compile into the digest. A failure contributes too: a build that
/// stopped compiling would otherwise agree with one that did not.
pub fn digest_outcome(acc: &mut u64, outcome: &Outcome)
    ensures
        *final(acc) == digest_of(*old(acc), outcome.bytes()),
        outcome matches Outcome::Compiled { js, css: None } ==> *final(acc) == digest_of(
            *old(acc),
            js@,
        ),
        outcome matches Outcome::Compiled { js, css: Some(css) } ==> *final(acc) == digest_of(
            digest_of(*old(acc), js@),
            css@,
        ),
        outcome is Failed ==> *final(acc) == digest_of(
            *old(acc),
            seq![0x3c, 0x65, 0x72, 0x72, 0x3e],
        ),
{
    match outcome {
        Outcome::Compiled { js, css } => {
            digest(acc, js.as_slice());
            match css {
                Some(css) => {
                    digest(acc, css.as_slice());
                    proof {
                        law_digest_continues(*old(acc), js@, css@);
                    }
                },
                None => {},
            }
        },
        Outcome::Failed => {
            let mark: [u8; 5] = [0x3c, 0x65, 0x72, 0x72, 0x3e];
            assert(mark@ =~= failure_mark());
            digest(acc, mark.as_slice());
        },
    }
}

/// Nothing taken in leaves the digest as it was; one byte is mixed in by exclusive or and the sum is
/// multiplied out modulo a word. With [`law_digest_continues`] this fixes the digest of every text.
pub proof fn law_digest_of_one_byte(acc: u64, byte: u8)
    ensures
        digest_of(acc, Seq::empty()) == acc,
        digest_of(acc, seq![byte]) == (((acc ^ (byte as u64)) * 0x0100_0000_01b3)
            % 0x1_0000_0000_0000_0000) as u64,
{
    assert(seq![byte].drop_last() =~= Seq::<u8>::empty());
    assert(digest_of(acc, Seq::empty()) == acc);
}

/// A compile contributes the whole of what it produced: all of its script and then all of its style
/// sheet.
pub proof fn law_outcome_contributes_everything(js: Vec<u8>, css: Vec<u8>)
    ensures
        (Outcome::Compiled { js, css: None }).bytes() == js@,
        (Outcome::Compiled { js, css: None }).bytes().len() == js@.len(),
        (Outcome::Compiled { js, css: Some(css) }).bytes() == js@ + css@,
        (Outcome::Compiled { js, css: Some(css) }).bytes().len() == js@.len() + css@.len(),
        forall|i: int|
            0 <= i < js@.len() ==> (Outcome::Compiled { js, css: Some(css) }).bytes()[i]
                == #[trigger] js@[i],
        forall|i: int|
            0 <= i < css@.len() ==> (Outcome::Compiled { js, css: Some(css) }).bytes()[js@.len()
                + i] == #[trigger] css@[i],
{
}

/// A failure contributes, and what it contributes is the same each time: the five bytes of `<err>`.
pub proof fn law_failure_contributes()
    ensures
        Outcome::Failed.bytes() == seq![0x3cu8, 0x65u8, 0x72u8, 0x72u8, 0x3eu8],
{
}

/// The digest of one text after another is the digest of the two joined: a digest can be taken in
/// pieces.
pub proof fn law_digest_continues(acc: u64, first: Seq<u8>, second: Seq<u8>)
    ensures
        digest_of(acc, first + second) == digest_of(digest_of(acc, first), second),
    decreases second.len(),
{
    if second.len() == 0 {
        assert(first + second =~= first);
    } else {
        assert((first + second).drop_last() =~= first + second.drop_last());
        law_digest_continues(acc, first, second.drop_last());
    }
}

/// The factor has an inverse, so multiplying by it loses nothing.
proof fn lemma_factor_invertible(x: int)
    requires
        0 <= x < digest_modulus(),
    ensures
        ((x * DIGEST_FACTOR) % digest_modulus() * 0xce96_5057_aff6_957b) % digest_modulus() == x,
{
    let m = digest_modulus();
    let p = DIGEST_FACTOR as int;
    let inverse: int = 0xce96_5057_aff6_957b;
    let k: int = 887285111055;
    vstd::arithmetic::div_mod::lemma_mul_mod_noop_left(x * p, inverse, m);
    assert(x * p * inverse == m * (x * k) + x) by (nonlinear_arith)
        requires
            p * inverse == m * k + 1,
    ;
    vstd::arithmetic::div_mod::lemma_mod_multiples_vanish(x * k, x, m);
    vstd::arithmetic::div_mod::lemma_small_mod(x as nat, m as nat);
}

/// One byte takes different digests to different digests.
proof fn lemma_step_injective(a: u64, b: u64, byte: u8)
    requires
        a != b,
    ensures
        digest_step(a, byte) != digest_step(b, byte),
{
    let x = a ^ (byte as u64);
    let y = b ^ (byte as u64);
    assert(x != y) by (bit_vector)
        requires
            a != b,
            x == a ^ (byte as u64),
            y == b ^ (byte as u64),
    ;
    lemma_factor_invertible(x as int);
    lemma_factor_invertible(y as int);
}

/// Digests that differ stay different under the same bytes: what follows a difference never hides
/// it.
pub proof fn law_difference_persists(a: u64, b: u64, bytes: Seq<u8>)
    requires
        a != b,
    ensures
        digest_of(a, bytes) != digest_of(b, bytes),
    decreases bytes.len(),
{
    if bytes.len() > 0 {
        law_difference_persists(a, b, bytes.drop_last());
        lemma_step_injective(
            digest_of(a, bytes.drop_last()),
            digest_of(b, bytes.drop_last()),
            bytes.last(),
        );
    }
}

/// Every byte counts: texts that differ in one byte alone have different digests.
pub proof fn law_every_byte_counts(acc: u64, before: Seq<u8>, a: u8, b: u8, after: Seq<u8>)
    requires
        a != b,
    ensures
        digest_of(acc, before.push(a) + after) != digest_of(acc, before.push(b) + after),
{
    law_digest_continues(acc, before.push(a), after);
    law_digest_continues(acc, before.push(b), after);
    assert(before.push(a).drop_last() =~= before);
    assert(before.push(b).drop_last() =~= before);
    let start = digest_of(acc, before);
    let x = start ^ (a as u64);
    let y = start ^ (b as u64);
    assert(x != y) by (bit_vector)
        requires
            a != b,
            x == start ^ (a as u64),
            y == start ^ (b as u64),
    ;
    lemma_factor_invertible(x as int);
    lemma_factor_invertible(y as int);
    law_difference_persists(
        digest_of(acc, before.push(a)),
        digest_of(acc, before.push(b)),
        after,
    );
}

/// Values that differ only in their low byte are more than a low byte apart once multiplied.
proof fn lemma_factor_spreads(x: int, y: int)
    requires
        x != y,
        -256 < x - y < 256,
    ensures
        ({
            let u = (x * DIGEST_FACTOR) % digest_modulus();
            let v = (y * DIGEST_FACTOR) % digest_modulus();
            u / 256 != v / 256
        }),
{
    let u = (x * DIGEST_FACTOR) % digest_modulus();
    let v = (y * DIGEST_FACTOR) % digest_modulus();
    let k = (x * DIGEST_FACTOR) / digest_modulus() - (y * DIGEST_FACTOR) / digest_modulus();
    let d = x - y;
    assert(d * 0x0100_0000_01b3 == k * 0x1_0000_0000_0000_0000 + (u - v));
    if u / 256 == v / 256 {
        assert(-256 < u - v < 256);
        if k >= 1 || k <= -1 {
            assert(false);
        } else {
            assert(k == 0);
            assert(false);
        }
    }
}

/// Taking two different bytes in one order or the other gives different digests.
proof fn lemma_exchange_differs(start: u64, a: u8, b: u8)
    requires
        a != b,
    ensures
        digest_step(digest_step(start, a), b) != digest_step(digest_step(start, b), a),
{
    let x = start ^ (a as u64);
    let y = start ^ (b as u64);
    assert(x != y && x / 256 == y / 256) by (bit_vector)
        requires
            a != b,
            x == start ^ (a as u64),
            y == start ^ (b as u64),
    ;
    lemma_factor_spreads(x as int, y as int);
    let u = digest_step(start, a);
    let v = digest_step(start, b);
    assert(u / 256 != v / 256);
    let s = u ^ (b as u64);
    let t = v ^ (a as u64);
    assert(s != t) by (bit_vector)
        requires
            u / 256 != v / 256,
            s == u ^ (b as u64),
            t == v ^ (a as u64),
    ;
    lemma_factor_invertible(s as int);
    lemma_factor_invertible(t as int);
}

/// The digest after one byte more.
proof fn lemma_digest_push(acc: u64, bytes: Seq<u8>, byte: u8)
    ensures
        digest_of(acc, bytes.push(byte)) == digest_step(digest_of(acc, bytes), byte),
{
    assert(bytes.push(byte).drop_last() =~= bytes);
}

/// Two texts that end in the same two different bytes, in one order and the other, have different
/// digests.
proof fn lemma_ending_exchange_differs(acc: u64, before: Seq<u8>, a: u8, b: u8)
    requires
        a != b,
    ensures
        digest_of(acc, before.push(a).push(b)) != digest_of(acc, before.push(b).push(a)),
{
    lemma_exchange_differs(digest_of(acc, before), a, b);
    lemma_digest_push(acc, before, a);
    lemma_digest_push(acc, before, b);
    lemma_digest_push(acc, before.push(a), b);
    lemma_digest_push(acc, before.push(b), a);
}

/// The order counts: exchanging two neighbouring bytes that differ changes the digest.
pub proof fn law_order_counts(acc: u64, before: Seq<u8>, a: u8, b: u8, after: Seq<u8>)
    requires
        a != b,
    ensures
        digest_of(acc, before.push(a).push(b) + after) != digest_of(
            acc,
            before.push(b).push(a) + after,
        ),
{
    let one = before.push(a).push(b);
    let other = before.push(b).push(a);
    lemma_ending_exchange_differs(acc, before, a, b);
    law_digest_continues(acc, one, after);
    law_digest_continues(acc, other, after);
    law_difference_persists(digest_of(acc, one), digest_of(acc, other), after);
}

/// Two texts of one length that differ in a single place have different digests.
proof fn lemma_place_counts(acc: u64, one: Seq<u8>, other: Seq<u8>, i: int)
    requires
        0 <= i < one.len(),
        one.len() == other.len(),
        one[i] != other[i],
        forall|k: int| 0 <= k < one.len() && k != i ==> one[k] == other[k],
    ensures
        digest_of(acc, one) != digest_of(acc, other),
{
    let before = one.take(i);
    let after = one.skip(i + 1);
    assert(one =~= before.push(one[i]) + after);
    assert(other =~= before.push(other[i]) + after);
    law_every_byte_counts(acc, before, one[i], other[i], after);
}

/// Scripts that differ in any single byte are told apart, with the same style sheet or with none.
pub proof fn law_every_script_byte_counts(
    acc: u64,
    js: Vec<u8>,
    other: Vec<u8>,
    css: Option<Vec<u8>>,
    i: int,
)
    requires
        0 <= i < js@.len(),
        js@.len() == other@.len(),
        js@[i] != other@[i],
        forall|k: int| 0 <= k < js@.len() && k != i ==> js@[k] == other@[k],
    ensures
        digest_of(acc, (Outcome::Compiled { js, css }).bytes()) != digest_of(
            acc,
            (Outcome::Compiled { js: other, css }).bytes(),
        ),
{
    lemma_place_counts(
        acc,
        (Outcome::Compiled { js, css }).bytes(),
        (Outcome::Compiled { js: other, css }).bytes(),
        i,
    );
}

/// Style sheets that differ in any single byte are told apart, after the same script.
pub proof fn law_every_style_byte_counts(
    acc: u64,
    js: Vec<u8>,
    css: Vec<u8>,
    other: Vec<u8>,
    i: int,
)
    requires
        0 <= i < css@.len(),
        css@.len() == other@.len(),
        css@[i] != other@[i],
        forall|k: int| 0 <= k < css@.len() && k != i ==> css@[k] == other@[k],
    ensures
        digest_of(acc, (Outcome::Compiled { js, css: Some(css) }).bytes()) != digest_of(
            acc,
            (Outcome::Compiled { js, css: Some(other) }).bytes(),
        ),
{
    lemma_place_counts(
        acc,
        (Outcome::Compiled { js, css: Some(css) }).bytes(),
        (Outcome::Compiled { js, css: Some(other) }).bytes(),
        js@.len() + i,
    );
}

} // verus!
