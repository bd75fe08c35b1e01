use vstd::prelude::*;

verus! {

/// The two bytes of a 16-bit field, least significant first.
pub open spec fn le16(x: u16) -> Seq<u8> {
    seq![(x & 0xff) as u8, ((x >> 8) & 0xff) as u8]
}

/// The four bytes of a 32-bit field, least significant first.
pub open spec fn le32(x: u32) -> Seq<u8> {
    seq![
        (x & 0xff) as u8,
        ((x >> 8) & 0xff) as u8,
        ((x >> 16) & 0xff) as u8,
        ((x >> 24) & 0xff) as u8,
    ]
}

/// The 44-byte header of the capture artifact: a RIFF/WAVE file holding one
/// channel of 32-bit IEEE-float samples at the given rate. `data_len` is the
/// byte length of the sample data that follows.
pub open spec fn wav_header(data_len: u32, rate: u32) -> Seq<u8>
    recommends
        data_len + 36 <= u32::MAX,
        4 * rate <= u32::MAX,
{
    seq![0x52u8, 0x49u8, 0x46u8, 0x46u8]  // "RIFF"
     + le32(((data_len + 36) as u32)) + seq![0x57u8, 0x41u8, 0x56u8, 0x45u8]  // "WAVE"
     + seq![0x66u8, 0x6du8, 0x74u8, 0x20u8]  // "fmt "
     + le32(16u32)  // format chunk length
     + le16(3u16)  // sample format: IEEE float
     + le16(1u16)  // channels: mono
     + le32(rate) + le32(((4 * rate) as u32))  // bytes per second
     + le16(4u16)  // bytes per frame
     + le16(32u16)  // bits per sample
     + seq![0x64u8, 0x61u8, 0x74u8, 0x61u8]  // "data"
     + le32(data_len)
}

/// The sample data: each sample's 32-bit pattern, least significant byte
/// first, in capture order.
pub open spec fn sample_data(samples: Seq<u32>) -> Seq<u8>
    decreases samples.len(),
{
    if samples.len() == 0 {
        Seq::empty()
    } else {
        sample_data(samples.drop_last()) + le32(samples.last())
    }
}

/// The whole artifact: header, then sample data.
pub open spec fn wav_bytes(samples: Seq<u32>, rate: u32) -> Seq<u8>
    recommends
        4 * samples.len() + 36 <= u32::MAX,
        4 * rate <= u32::MAX,
{
    wav_header(((4 * samples.len()) as u32), rate) + sample_data(samples)
}

proof fn lemma_u16_byte_range(x: u16)
    ensures
        x & 0xff <= 0xff,
        (x >> 8) & 0xff <= 0xff,
{
    assert(x & 0xff <= 0xff) by (bit_vector);
    assert((x >> 8) & 0xff <= 0xff) by (bit_vector);
}

proof fn lemma_u32_byte_range(x: u32)
    ensures
        x & 0xff <= 0xff,
        (x >> 8) & 0xff <= 0xff,
        (x >> 16) & 0xff <= 0xff,
        (x >> 24) & 0xff <= 0xff,
{
    assert(x & 0xff <= 0xff) by (bit_vector);
    assert((x >> 8) & 0xff <= 0xff) by (bit_vector);
    assert((x >> 16) & 0xff <= 0xff) by (bit_vector);
    assert((x >> 24) & 0xff <= 0xff) by (bit_vector);
}

fn push_le16(out: &mut Vec<u8>, x: u16)
    ensures
        final(out)@ == old(out)@ + le16(x),
{
    proof {
        lemma_u16_byte_range(x);
    }
    out.push((x & 0xff) as u8);
    out.push(((x >> 8) & 0xff) as u8);
    proof {
        assert(out@ =~= old(out)@ + le16(x));
    }
}

fn push_le32(out: &mut Vec<u8>, x: u32)
    ensures
        final(out)@ == old(out)@ + le32(x),
{
    proof {
        lemma_u32_byte_range(x);
    }
    out.push((x & 0xff) as u8);
    out.push(((x >> 8) & 0xff) as u8);
    out.push(((x >> 16) & 0xff) as u8);
    out.push(((x >> 24) & 0xff) as u8);
    proof {
        assert(out@ =~= old(out)@ + le32(x));
    }
}

/// Encodes a finished capture as the artifact file's exact bytes.
///
/// `None` exactly when the capture or the rate is too large for the 32-bit
/// size fields of the format.
pub fn encode_wav(samples: &Vec<u32>, rate: u32) -> (r: Option<Vec<u8>>)
    ensures
        r is Some <==> 4 * samples@.len() + 36 <= u32::MAX && 4 * rate <= u32::MAX,
        (r matches Some(b) ==> b@ == wav_bytes(samples@, rate)),
{
    if rate > 0xffff_ffffu32 / 4 {
        return None;
    }
    let len64: u64 = samples.len() as u64;
    if len64 > (0xffff_ffffu64 - 36) / 4 {
        return None;
    }
    let data_len: u32 = (4 * len64) as u32;
    assert(data_len == ((4 * samples@.len()) as u32));

    let mut out: Vec<u8> = Vec::new();
    out.push(0x52);
    out.push(0x49);
    out.push(0x46);
    out.push(0x46);
    push_le32(&mut out, data_len + 36);
    out.push(0x57);
    out.push(0x41);
    out.push(0x56);
    out.push(0x45);
    out.push(0x66);
    out.push(0x6d);
    out.push(0x74);
    out.push(0x20);
    push_le32(&mut out, 16);
    push_le16(&mut out, 3);
    push_le16(&mut out, 1);
    push_le32(&mut out, rate);
    push_le32(&mut out, 4 * rate);
    push_le16(&mut out, 4);
    push_le16(&mut out, 32);
    out.push(0x64);
    out.push(0x61);
    out.push(0x74);
    out.push(0x61);
    push_le32(&mut out, data_len);
    proof {
        assert(out@ =~= wav_header(data_len, rate));
    }

    let ghost header: Seq<u8> = wav_header(data_len, rate);
    let mut i: usize = 0;
    while i < samples.len()
        invariant
            i <= samples.len(),
            out@ == header + sample_data(samples@.take(i as int)),
        decreases samples.len() - i,
    {
        push_le32(&mut out, samples[i]);
        proof {
            let t = samples@.take(i + 1 as int);
            assert(t.drop_last() =~= samples@.take(i as int));
            assert(t.last() == samples@[i as int]);
        }
        i = i + 1;
    }
    proof {
        assert(samples@.take(samples@.len() as int) =~= samples@);
    }
    Some(out)
}

} // verus!
