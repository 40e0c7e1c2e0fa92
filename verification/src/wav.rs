//! WAV side-file bookkeeping: the RIFF header an audio worker writes
//! before its samples, the final size patch, and the sizes read out of
//! the OS-delivered wave format blob.

use vstd::prelude::*;

use crate::text::{dec_seq, u64_to_string};

verus! {

/// A 32-bit value in little-endian byte order.
pub open spec fn le32(v: u32) -> Seq<u8> {
    seq![
        (v & 0xFF) as u8,
        ((v >> 8) & 0xFF) as u8,
        ((v >> 16) & 0xFF) as u8,
        ((v >> 24) & 0xFF) as u8,
    ]
}

fn push_le32(out: &mut Vec<u8>, v: u32)
    ensures
        final(out)@ == old(out)@ + le32(v),
{
    out.push((v & 0xFF) as u8);
    out.push(((v >> 8u32) & 0xFF) as u8);
    out.push(((v >> 16u32) & 0xFF) as u8);
    out.push(((v >> 24u32) & 0xFF) as u8);
    assert(out@ =~= old(out)@ + le32(v));
}

/// The header of a fresh WAV side-file: `RIFF` and `data` sizes are
/// written as zero and patched on close.
pub open spec fn wav_header_spec(format_blob: Seq<u8>) -> Seq<u8> {
    seq![0x52u8, 0x49u8, 0x46u8, 0x46u8] + le32(0) + seq![0x57u8, 0x41u8, 0x56u8, 0x45u8] + seq![
        0x66u8,
        0x6Du8,
        0x74u8,
        0x20u8,
    ] + le32(format_blob.len() as u32) + format_blob + seq![0x64u8, 0x61u8, 0x74u8, 0x61u8]
        + le32(0)
}

/// Builds the WAV header for a format blob. The `data` chunk size sits at
/// the last four bytes.
pub fn wav_header_bytes(format_blob: &Vec<u8>) -> (r: Vec<u8>)
    requires
        format_blob@.len() <= u32::MAX,
    ensures
        r@ == wav_header_spec(format_blob@),
        r@.len() == 28 + format_blob@.len(),
{
    let mut out: Vec<u8> = Vec::new();
    out.push(0x52);
    out.push(0x49);
    out.push(0x46);
    out.push(0x46);
    push_le32(&mut out, 0);
    out.push(0x57);
    out.push(0x41);
    out.push(0x56);
    out.push(0x45);
    out.push(0x66);
    out.push(0x6D);
    out.push(0x74);
    out.push(0x20);
    push_le32(&mut out, format_blob.len() as u32);
    let mut i: usize = 0;
    let n = format_blob.len();
    let ghost head = out@;
    while i < n
        invariant
            i <= n,
            n == format_blob@.len(),
            out@ == head + format_blob@.take(i as int),
        decreases n - i,
    {
        out.push(format_blob[i]);
        assert(out@ =~= head + format_blob@.take(i + 1));
        i = i + 1;
    }
    proof {
        assert(format_blob@.take(n as int) =~= format_blob@);
    }
    out.push(0x64);
    out.push(0x61);
    out.push(0x74);
    out.push(0x61);
    push_le32(&mut out, 0);
    assert(out@ =~= wav_header_spec(format_blob@));
    out
}

/// The sizes patched into a finished WAV file: the RIFF chunk size is the
/// file size less eight (truncated to 32 bits, as the format stores it),
/// and the data size is the written byte count capped at the field's
/// maximum.
pub fn wav_size_patch(file_size: u64, written_audio_bytes: u64) -> (r: (u32, u32))
    ensures
        r.0 == (if file_size >= 8 {
            (file_size - 8) as u64
        } else {
            0u64
        }) as u32,
        r.1 == if written_audio_bytes < u32::MAX {
            written_audio_bytes as u32
        } else {
            u32::MAX
        },
{
    let riff: u64 = if file_size >= 8 {
        file_size - 8
    } else {
        0
    };
    #[verifier::truncate]
    let riff32: u32 = riff as u32;
    let data32: u32 = if written_audio_bytes < u32::MAX as u64 {
        written_audio_bytes as u32
    } else {
        u32::MAX
    };
    (riff32, data32)
}

/// A 16-bit little-endian value.
pub open spec fn le16(b0: u8, b1: u8) -> int {
    b0 + 256 * b1
}

pub open spec fn msg_zero_block_align() -> Seq<char> {
    "Formato WASAPI inválido: block_align = 0."@
}

pub open spec fn msg_format_too_large(total: int) -> Seq<char> {
    "Formato WASAPI inválido: tamaño de estructura demasiado grande ("@ + dec_seq(total) + ")."@
}

/// Reads the extension size and block alignment out of the leading bytes
/// of a wave format structure, and checks the whole structure's size:
/// zero alignment and structures beyond four kibibytes are rejected.
pub fn wave_format_sizes(header: &Vec<u8>) -> (r: Result<(usize, usize), String>)
    requires
        header@.len() >= 18,
    ensures
        ({
            let cb = le16(header@[16], header@[17]);
            let ba = le16(header@[12], header@[13]);
            let total = 18 + cb;
            &&& (ba == 0 ==> (r matches Err(e) && e@ == msg_zero_block_align()))
            &&& ((ba != 0 && total > 4096) ==> (r matches Err(e) && e@ == msg_format_too_large(
                total,
            )))
            &&& ((ba != 0 && total <= 4096) ==> r == Ok::<(usize, usize), String>(
                ((total as usize), (ba as usize)),
            ))
        }),
{
    let cb_size: usize = header[16] as usize + 256 * (header[17] as usize);
    let block_align: usize = header[12] as usize + 256 * (header[13] as usize);
    if block_align == 0 {
        return Err(String::from_str("Formato WASAPI inválido: block_align = 0."));
    }
    let total_len: usize = 18 + cb_size;
    if total_len > 4096 {
        let mut m = String::from_str(
            "Formato WASAPI inválido: tamaño de estructura demasiado grande (",
        );
        m.append(u64_to_string(total_len as u64).as_str());
        m.append(").");
        assert(m@ =~= msg_format_too_large(18 + le16(header@[16], header@[17])));
        return Err(m);
    }
    Ok((total_len, block_align))
}

} // verus!
