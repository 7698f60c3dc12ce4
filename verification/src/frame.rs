//! Messages on the wire: the length of the body as four bytes, the lowest first,
//! and then the body.

use vstd::prelude::*;

verus! {

/// One more than the largest length that a prefix can announce.
pub const LENGTH_LIMIT: u64 = 0x1_0000_0000;

/// The four bytes of `n`, the lowest first.
pub open spec fn le_bytes(n: nat) -> Seq<u8>
    recommends
        n < LENGTH_LIMIT,
{
    seq![
        (n % 0x100) as u8,
        (n / 0x100 % 0x100) as u8,
        (n / 0x1_0000 % 0x100) as u8,
        (n / 0x100_0000 % 0x100) as u8,
    ]
}

/// The number that four bytes denote, the lowest first.
pub open spec fn le_value(bytes: Seq<u8>) -> nat
    recommends
        bytes.len() == 4,
{
    bytes[0] as nat + 0x100 * (bytes[1] as nat) + 0x1_0000 * (bytes[2] as nat) + 0x100_0000 * (
    bytes[3] as nat)
}

/// The prefix that goes before `body`: the low 32 bits of its length.
pub open spec fn prefix_of(body: Seq<u8>) -> Seq<u8> {
    le_bytes(body.len() % (LENGTH_LIMIT as nat))
}

/// A whole message as it goes over the wire.
pub open spec fn frame(body: Seq<u8>) -> Seq<u8> {
    prefix_of(body) + body
}

/// Messages as they go over the wire, one after the other.
pub open spec fn frames(bodies: Seq<Seq<u8>>) -> Seq<u8>
    decreases bodies.len(),
{
    if bodies.len() == 0 {
        Seq::empty()
    } else {
        frame(bodies[0]) + frames(bodies.drop_first())
    }
}

/// What a reader gets that takes four bytes off the stream and then as many as they
/// announce: the body and the rest of the stream, or nothing where the stream is too
/// short.
pub open spec fn split_frame(stream: Seq<u8>) -> Option<(Seq<u8>, Seq<u8>)> {
    if stream.len() < 4 {
        None
    } else {
        let length = le_value(stream.take(4)) as int;
        if stream.len() < 4 + length {
            None
        } else {
            Some((stream.subrange(4, 4 + length), stream.skip(4 + length)))
        }
    }
}

/// The bodies that such a reader takes off the stream until it is too short for another.
pub open spec fn split_frames(stream: Seq<u8>) -> Seq<Seq<u8>>
    decreases stream.len(),
{
    match split_frame(stream) {
        None => Seq::empty(),
        Some((body, rest)) => seq![body] + split_frames(rest),
    }
}

/// The four bytes of a number below the limit denote that number.
pub proof fn law_le_bytes_read_back(n: nat)
    requires
        n < LENGTH_LIMIT,
    ensures
        le_bytes(n).len() == 4,
        le_value(le_bytes(n)) == n,
{
    assert(n == 0x100 * (n / 0x100) + n % 0x100);
    assert(n / 0x100 == 0x100 * (n / 0x1_0000) + n / 0x100 % 0x100);
    assert(n / 0x1_0000 == 0x100 * (n / 0x100_0000) + n / 0x1_0000 % 0x100);
    assert(n / 0x100_0000 % 0x100 == n / 0x100_0000);
}

/// Every four bytes are those of the number they denote.
pub proof fn law_le_value_reads_back(bytes: Seq<u8>)
    requires
        bytes.len() == 4,
    ensures
        le_value(bytes) < LENGTH_LIMIT,
        le_bytes(le_value(bytes)) == bytes,
{
    let n = le_value(bytes) as int;
    let (b0, b1, b2, b3) = (bytes[0] as int, bytes[1] as int, bytes[2] as int, bytes[3] as int);
    assert(n == b0 + 0x100 * (b1 + 0x100 * (b2 + 0x100 * b3)));
    assert(n / 0x100 == b1 + 0x100 * (b2 + 0x100 * b3) && n % 0x100 == b0);
    assert(n / 0x1_0000 == b2 + 0x100 * b3);
    assert(n / 0x100_0000 == b3);
    assert(n / 0x100 % 0x100 == b1);
    assert(n / 0x1_0000 % 0x100 == b2);
    assert(le_bytes(le_value(bytes)) =~= bytes);
}

/// A reader gets back a framed body, whatever follows it on the stream.
pub proof fn law_frame_reads_back(body: Seq<u8>, rest: Seq<u8>)
    requires
        body.len() < LENGTH_LIMIT,
    ensures
        split_frame(frame(body) + rest) == Some((body, rest)),
{
    let stream = frame(body) + rest;
    law_prefix_weighs_the_body(body);
    assert(stream.take(4) =~= prefix_of(body));
    assert(stream.subrange(4, 4 + body.len() as int) =~= body);
    assert(stream.skip(4 + body.len() as int) =~= rest);
}

/// A reader gets back framed bodies, all of them and in their order.
pub proof fn law_frames_read_back(bodies: Seq<Seq<u8>>)
    requires
        forall|i: int| 0 <= i < bodies.len() ==> (#[trigger] bodies[i]).len() < LENGTH_LIMIT,
    ensures
        split_frames(frames(bodies)) == bodies,
    decreases bodies.len(),
{
    if bodies.len() == 0 {
        assert(split_frames(frames(bodies)) =~= bodies);
    } else {
        law_frame_reads_back(bodies[0], frames(bodies.drop_first()));
        law_frames_read_back(bodies.drop_first());
        assert(seq![bodies[0]] + bodies.drop_first() =~= bodies);
    }
}

/// The prefix that goes before `body`.
pub fn length_prefix(body: &Vec<u8>) -> (prefix: Vec<u8>)
    ensures
        prefix@ == prefix_of(body@),
{
    let n: u64 = (body.len() as u64) % LENGTH_LIMIT;
    let prefix: Vec<u8> =
        vec![
        (n % 0x100) as u8,
        (n / 0x100 % 0x100) as u8,
        (n / 0x1_0000 % 0x100) as u8,
        (n / 0x100_0000 % 0x100) as u8,
    ];
    assert(prefix@ =~= prefix_of(body@));
    prefix
}

/// The length that a prefix announces.
pub fn announced_length(prefix: [u8; 4]) -> (length: u32)
    ensures
        length == le_value(prefix@),
{
    prefix[0] as u32 + 0x100 * (prefix[1] as u32) + 0x1_0000 * (prefix[2] as u32) + 0x100_0000 * (
    prefix[3] as u32)
}

/// The prefix is four bytes, which weighed by the powers of 256 sum up to the body's length
/// as far as 32 bits go.
pub proof fn law_prefix_weighs_the_body(body: Seq<u8>)
    ensures
        prefix_of(body).len() == 4,
        prefix_of(body)[0] + prefix_of(body)[1] * 256 + prefix_of(body)[2] * 65536
            + prefix_of(body)[3] * 16777216 == body.len() % 4294967296,
        body.len() < 4294967296 ==> le_value(prefix_of(body)) == body.len(),
{
    let n = body.len() % 4294967296;
    assert(prefix_of(body) == le_bytes(n));
    law_le_bytes_read_back(n);
    assert(le_value(prefix_of(body)) == n);
    assert(body.len() < 4294967296 ==> n == body.len());
}

/// Each byte of a prefix is a digit of the length that it announces, to the base 256.
pub proof fn law_announced_length_has_these_digits(prefix: Seq<u8>)
    requires
        prefix.len() == 4,
    ensures
        le_value(prefix) < 4294967296,
        le_value(prefix) % 256 == prefix[0],
        le_value(prefix) / 256 % 256 == prefix[1],
        le_value(prefix) / 65536 % 256 == prefix[2],
        le_value(prefix) / 16777216 == prefix[3],
{
    let n = le_value(prefix) as int;
    let (b0, b1, b2, b3) = (
        prefix[0] as int,
        prefix[1] as int,
        prefix[2] as int,
        prefix[3] as int,
    );
    assert(n == b0 + 0x100 * (b1 + 0x100 * (b2 + 0x100 * b3)));
    assert(n / 0x100 == b1 + 0x100 * (b2 + 0x100 * b3) && n % 0x100 == b0);
    assert(n / 0x1_0000 == b2 + 0x100 * b3);
    assert(n / 0x100_0000 == b3);
}

/// A framed message is four bytes and then the whole body.
pub proof fn law_frame_holds_the_body(body: Seq<u8>)
    ensures
        frame(body).len() == 4 + body.len(),
        frame(body).skip(4) == body,
{
    assert(frame(body).skip(4) =~= body);
}

} // verus!
