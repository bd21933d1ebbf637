//! The frame encoder: a pure transform from a grid of 2-bit pixel
//! intensities to the vendor command stream — fixed header, bit-packed
//! payload, running XOR checksum, fixed trailer — split into
//! transport-sized packets.

use vstd::prelude::*;

use crate::structures::{ErrorMessage, Frame};

verus! {

/// Seed of the running XOR checksum over the packed payload bytes.
pub const CHECKSUM_SEED: u8 = 7;

/// Upper bound on the length of one transport packet.
pub const PACKET_CAP: usize = 20;

/// The fixed protocol header that opens every encoded command.
pub open spec fn frame_header() -> Seq<u8> {
    seq![0xfa, 0x03, 0x00, 0x39, 0x01, 0x00, 0x06]
}

/// The fixed end-of-frame marker that closes every encoded command.
pub open spec fn frame_trailer() -> Seq<u8> {
    seq![0x55, 0xa9]
}

/// A pixel intensity is one of {0, 1, 2, 3}.
pub open spec fn pixel_ok(p: u8) -> bool {
    p <= 3
}

/// Every pixel of the grid is a legal 2-bit intensity.
pub open spec fn frame_valid(rows: Seq<Seq<u8>>) -> bool {
    forall|i: int, j: int|
        0 <= i < rows.len() && 0 <= j < rows[i].len() ==> pixel_ok(#[trigger] rows[i][j])
}

/// The pixels of the grid in row-major order.
pub open spec fn flatten_rows(rows: Seq<Seq<u8>>) -> Seq<u8>
    decreases rows.len(),
{
    if rows.len() == 0 {
        Seq::empty()
    } else {
        flatten_rows(rows.drop_last()) + rows.last()
    }
}

/// Four 2-bit intensities packed into one byte, first pixel in the two
/// most significant bits.
pub open spec fn pack4(a: u8, b: u8, c: u8, d: u8) -> u8 {
    (64 * (a as int) + 16 * (b as int) + 4 * (c as int) + (d as int)) as u8
}

/// The packed payload: one byte for every complete group of four pixels,
/// in order; a trailing group of fewer than four pixels emits nothing.
pub open spec fn packed_payload(pixels: Seq<u8>) -> Seq<u8> {
    Seq::new(
        pixels.len() / 4,
        |j: int| pack4(pixels[4 * j], pixels[4 * j + 1], pixels[4 * j + 2], pixels[4 * j + 3]),
    )
}

/// The running XOR of `bytes` over the given seed.
pub open spec fn xor_fold(seed: u8, bytes: Seq<u8>) -> u8
    decreases bytes.len(),
{
    if bytes.len() == 0 {
        seed
    } else {
        xor_fold(seed, bytes.drop_last()) ^ bytes.last()
    }
}

/// The whole command stream for the given pixels:
/// header, packed payload, checksum byte, trailer.
pub open spec fn wire_bytes(pixels: Seq<u8>) -> Seq<u8> {
    frame_header() + packed_payload(pixels)
        + seq![xor_fold(CHECKSUM_SEED, packed_payload(pixels))] + frame_trailer()
}

/// Where chunk `i` of `bytes` ends: twenty bytes past its start, or at the
/// end of the stream, whichever comes first.
pub open spec fn chunk_end(len: nat, i: int) -> int {
    if 20 * i + 20 <= len {
        20 * i + 20
    } else {
        len as int
    }
}

/// `bytes` split into consecutive chunks of twenty, the remainder (possibly
/// empty) standing as the final chunk.
pub open spec fn packetize(bytes: Seq<u8>) -> Seq<Seq<u8>> {
    Seq::new(bytes.len() / 20 + 1, |i: int| bytes.subrange(20 * i, chunk_end(bytes.len(), i)))
}

/// The encoder's whole output for a valid pixel grid.
pub open spec fn encode_output(rows: Seq<Seq<u8>>) -> Seq<Seq<u8>> {
    packetize(wire_bytes(flatten_rows(rows)))
}

/// Walks the grid in row-major order, packing four pixels to a byte and
/// folding each finished byte into the checksum. Rejects the whole frame on
/// the first intensity outside {0,1,2,3}.
#[verifier::rlimit(50)]
pub fn pack_pixels(rows: &Vec<Vec<u8>>) -> (r: Result<(Vec<u8>, u8), ErrorMessage>)
    ensures
        match r {
            Ok(pc) => {
                &&& frame_valid(rows@.map_values(|row: Vec<u8>| row@))
                &&& pc.0@ == packed_payload(flatten_rows(rows@.map_values(|row: Vec<u8>| row@)))
                &&& pc.1 == xor_fold(CHECKSUM_SEED, pc.0@)
            },
            Err(e) => {
                &&& !frame_valid(rows@.map_values(|row: Vec<u8>| row@))
                &&& e@ == "Wrong value in frame"@
            },
        },
{
    let ghost rv: Seq<Seq<u8>> = rows@.map_values(|row: Vec<u8>| row@);
    let mut payload: Vec<u8> = Vec::new();
    let mut checksum: u8 = CHECKSUM_SEED;
    let mut acc: u8 = 0;
    let mut rem: usize = 0;
    let ghost mut seen: Seq<u8> = Seq::empty();

    let mut i: usize = 0;
    while i < rows.len()
        invariant
            i <= rows.len(),
            rv == rows@.map_values(|row: Vec<u8>| row@),
            seen == flatten_rows(rv.take(i as int)),
            forall|a: int, b: int|
                0 <= a < i && 0 <= b < rv[a].len() ==> pixel_ok(#[trigger] rv[a][b]),
            forall|k: int| 0 <= k < seen.len() ==> pixel_ok(#[trigger] seen[k]),
            4 * payload@.len() + rem == seen.len(),
            rem < 4,
            forall|j: int|
                0 <= j < payload@.len() ==> #[trigger] payload@[j] == pack4(
                    seen[4 * j],
                    seen[4 * j + 1],
                    seen[4 * j + 2],
                    seen[4 * j + 3],
                ),
            rem == 0 ==> acc == 0,
            rem == 1 ==> acc as int == seen[seen.len() - 1] as int,
            rem == 2 ==> acc as int == 4 * (seen[seen.len() - 2] as int) + (seen[seen.len()
                - 1] as int),
            rem == 3 ==> acc as int == 16 * (seen[seen.len() - 3] as int) + 4 * (seen[seen.len()
                - 2] as int) + (seen[seen.len() - 1] as int),
            checksum == xor_fold(CHECKSUM_SEED, payload@),
        decreases rows.len() - i,
    {
        let row = &rows[i];
        let mut j: usize = 0;
        while j < row.len()
            invariant
                i < rows.len(),
                j <= row.len(),
                rv == rows@.map_values(|r2: Vec<u8>| r2@),
                row@ == rv[i as int],
                seen == flatten_rows(rv.take(i as int)) + row@.take(j as int),
                forall|a: int, b: int|
                    0 <= a < i && 0 <= b < rv[a].len() ==> pixel_ok(#[trigger] rv[a][b]),
                forall|b: int| 0 <= b < j ==> pixel_ok(#[trigger] row@[b]),
                forall|k: int| 0 <= k < seen.len() ==> pixel_ok(#[trigger] seen[k]),
                4 * payload@.len() + rem == seen.len(),
                rem < 4,
                forall|t: int|
                    0 <= t < payload@.len() ==> #[trigger] payload@[t] == pack4(
                        seen[4 * t],
                        seen[4 * t + 1],
                        seen[4 * t + 2],
                        seen[4 * t + 3],
                    ),
                rem == 0 ==> acc == 0,
                rem == 1 ==> acc as int == seen[seen.len() - 1] as int,
                rem == 2 ==> acc as int == 4 * (seen[seen.len() - 2] as int) + (seen[seen.len()
                    - 1] as int),
                rem == 3 ==> acc as int == 16 * (seen[seen.len() - 3] as int) + 4
                    * (seen[seen.len() - 2] as int) + (seen[seen.len() - 1] as int),
                checksum == xor_fold(CHECKSUM_SEED, payload@),
            decreases row.len() - j,
        {
            let p = row[j];
            if p > 3 {
                assert(rv[i as int][j as int] == p);
                assert(!frame_valid(rv));
                return Err(ErrorMessage { message: "Wrong value in frame".to_owned() });
            }
            acc = acc * 4 + p;
            rem = rem + 1;
            proof {
                seen = seen.push(p);
                assert(seen.drop_last() =~= flatten_rows(rv.take(i as int)) + row@.take(j as int));
                assert(seen =~= flatten_rows(rv.take(i as int)) + row@.take(j as int + 1));
            }
            if rem == 4 {
                checksum = checksum ^ acc;
                let ghost old_payload = payload@;
                payload.push(acc);
                rem = 0;
                acc = 0;
                proof {
                    assert(payload@.drop_last() =~= old_payload);
                    assert(checksum == xor_fold(CHECKSUM_SEED, payload@));
                }
            }
            j = j + 1;
        }
        proof {
            assert(row@.take(row@.len() as int) =~= row@);
            assert(rv.take(i as int + 1).drop_last() =~= rv.take(i as int));
            assert(rv.take(i as int + 1).last() == rv[i as int]);
            assert(flatten_rows(rv.take(i as int + 1)) == flatten_rows(rv.take(i as int))
                + rv[i as int]);
        }
        i = i + 1;
    }
    proof {
        assert(rv.take(rv.len() as int) =~= rv);
        assert(seen == flatten_rows(rv));
        vstd::arithmetic::div_mod::lemma_fundamental_div_mod_converse(
            seen.len() as int,
            4,
            payload@.len() as int,
            rem as int,
        );
        assert(payload@ =~= packed_payload(seen));
    }
    Ok((payload, checksum))
}

/// Splits a byte stream into consecutive packets of at most twenty bytes,
/// in order; the remainder, possibly empty, is the final packet.
pub fn split_packets(bytes: &Vec<u8>) -> (r: Vec<Vec<u8>>)
    ensures
        r@.map_values(|p: Vec<u8>| p@) == packetize(bytes@),
{
    let mut packets: Vec<Vec<u8>> = Vec::new();
    let mut cur: Vec<u8> = Vec::new();
    let mut k: usize = 0;
    while k < bytes.len()
        invariant
            k <= bytes.len(),
            20 * packets@.len() + cur@.len() == k,
            cur@.len() < 20,
            forall|t: int|
                0 <= t < packets@.len() ==> (#[trigger] packets@[t])@ == bytes@.subrange(
                    20 * t,
                    20 * t + 20,
                ),
            cur@ == bytes@.subrange(20 * (packets@.len() as int), k as int),
        decreases bytes.len() - k,
    {
        let b = bytes[k];
        cur.push(b);
        k = k + 1;
        proof {
            assert(cur@ =~= bytes@.subrange(20 * (packets@.len() as int), k as int));
        }
        if cur.len() == PACKET_CAP {
            packets.push(cur);
            cur = Vec::new();
            proof {
                assert(cur@ =~= bytes@.subrange(20 * (packets@.len() as int), k as int));
            }
        }
    }
    packets.push(cur);
    proof {
        vstd::arithmetic::div_mod::lemma_fundamental_div_mod_converse(
            bytes@.len() as int,
            20,
            packets@.len() as int - 1,
            bytes@.len() as int - 20 * (packets@.len() as int - 1),
        );
        assert(packets@.map_values(|p: Vec<u8>| p@) =~= packetize(bytes@));
    }
    packets
}

/// Encodes a pixel grid into the vendor command stream and splits it into
/// transport packets. All-or-nothing: a frame holding any intensity outside
/// {0,1,2,3} yields the error and no packets.
pub fn chemion_encode(data: Frame) -> (r: Result<Frame, ErrorMessage>)
    ensures
        match r {
            Ok(out) => frame_valid(data@) && out@ == encode_output(data@),
            Err(e) => !frame_valid(data@) && e@ == "Wrong value in frame"@,
        },
{
    let (payload, checksum) = match pack_pixels(&data.glasses_frame) {
        Ok(pc) => pc,
        Err(e) => {
            return Err(e);
        },
    };

    let mut wire: Vec<u8> = Vec::new();
    wire.push(0xfa);
    wire.push(0x03);
    wire.push(0x00);
    wire.push(0x39);
    wire.push(0x01);
    wire.push(0x00);
    wire.push(0x06);
    proof {
        assert(wire@ =~= frame_header());
    }
    let mut k: usize = 0;
    while k < payload.len()
        invariant
            k <= payload.len(),
            wire@ == frame_header() + payload@.take(k as int),
        decreases payload.len() - k,
    {
        let b = payload[k];
        wire.push(b);
        k = k + 1;
        proof {
            assert(wire@ =~= frame_header() + payload@.take(k as int));
        }
    }
    wire.push(checksum);
    wire.push(0x55);
    wire.push(0xa9);
    proof {
        assert(payload@.take(payload@.len() as int) =~= payload@);
        assert(wire@ =~= wire_bytes(flatten_rows(data@)));
    }

    let packets = split_packets(&wire);
    Ok(Frame { glasses_frame: packets })
}

/// Encoding is deterministic: the packet sequence is a function of the
/// pixel grid alone, so equal frames encode to equal output.
pub proof fn lemma_encode_deterministic(a: Seq<Seq<u8>>, b: Seq<Seq<u8>>)
    requires
        a == b,
    ensures
        encode_output(a) == encode_output(b),
{
}

/// The checksum byte of the command stream is the XOR of the seed with
/// every packed payload byte, and it stands right after the payload.
pub proof fn lemma_checksum_correct(pixels: Seq<u8>)
    ensures
        wire_bytes(pixels)[7 + packed_payload(pixels).len() as int] == xor_fold(
            CHECKSUM_SEED,
            packed_payload(pixels),
        ),
{
    let payload = packed_payload(pixels);
    assert(wire_bytes(pixels)[7 + payload.len() as int] == xor_fold(CHECKSUM_SEED, payload));
}

/// Concatenating a packet sequence back into one stream.
pub open spec fn concat_packets(packets: Seq<Seq<u8>>) -> Seq<u8>
    decreases packets.len(),
{
    if packets.len() == 0 {
        Seq::empty()
    } else {
        packets.first() + concat_packets(packets.drop_first())
    }
}

/// Packetization loses nothing and reorders nothing: the packets of a byte
/// stream concatenate back to exactly that stream, every packet except the
/// last is exactly twenty bytes, and the last is shorter than twenty.
pub proof fn lemma_packetize_exact(bytes: Seq<u8>)
    ensures
        concat_packets(packetize(bytes)) == bytes,
        forall|i: int|
            0 <= i < packetize(bytes).len() - 1 ==> (#[trigger] packetize(bytes)[i]).len() == 20,
        packetize(bytes).last().len() < 20,
    decreases bytes.len(),
{
    vstd::arithmetic::div_mod::lemma_fundamental_div_mod(bytes.len() as int, 20);
    if bytes.len() < 20 {
        assert(packetize(bytes) =~~= seq![bytes]);
        let ps = packetize(bytes);
        assert(ps.first() == bytes);
        assert(ps.drop_first() =~= Seq::<Seq<u8>>::empty());
        assert(concat_packets(ps.drop_first()) == Seq::<u8>::empty());
        assert(concat_packets(ps) == bytes + Seq::<u8>::empty());
        assert(bytes + Seq::<u8>::empty() =~= bytes);
    } else {
        let rest = bytes.skip(20);
        lemma_packetize_exact(rest);
        vstd::arithmetic::div_mod::lemma_fundamental_div_mod(rest.len() as int, 20);
        assert(packetize(bytes) =~~= seq![bytes.take(20)] + packetize(rest)) by {
            assert(bytes.len() / 20 == rest.len() / 20 + 1) by {
                vstd::arithmetic::div_mod::lemma_fundamental_div_mod_converse(
                    bytes.len() as int,
                    20,
                    rest.len() as int / 20 + 1,
                    rest.len() as int % 20,
                );
            }
            assert forall|i: int| 0 <= i < packetize(bytes).len() implies packetize(bytes)[i]
                =~= (seq![bytes.take(20)] + packetize(rest))[i] by {
                if i > 0 {
                    assert(packetize(rest)[i - 1] == rest.subrange(
                        20 * (i - 1),
                        chunk_end(rest.len(), i - 1),
                    ));
                }
            }
        }
        assert(concat_packets(seq![bytes.take(20)] + packetize(rest)) == bytes.take(20)
            + concat_packets(packetize(rest))) by {
            let whole = seq![bytes.take(20)] + packetize(rest);
            assert(whole.first() == bytes.take(20));
            assert(whole.drop_first() =~= packetize(rest));
        }
        assert(bytes.take(20) + rest =~= bytes);
    }
}

} // verus!
