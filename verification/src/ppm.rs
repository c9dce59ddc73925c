//! Serialization of the finished image as plain-text PPM bytes.
//!
//! The format: a `P3` line, a `<width> <height>` line, a `255` line, then
//! one line per pixel with three space-separated channel bytes, pixels in
//! row-major order.

use vstd::prelude::*;

use crate::color::byte_of;
use crate::color::Color;

verus! {

/// The decimal digits of n, most significant first.
pub open spec fn dec_spec(n: nat) -> Seq<u8>
    decreases n,
{
    if n < 10 {
        seq![(48 + n) as u8]
    } else {
        dec_spec(n / 10).push((48 + n % 10) as u8)
    }
}

/// The bytes of one pixel's line: ` r g b\n`.
pub open spec fn pixel_line_spec(c: Color) -> Seq<u8> {
    seq![32u8] + dec_spec(byte_of(c.v.x) as nat) + seq![32u8] + dec_spec(byte_of(c.v.y) as nat)
        + seq![32u8] + dec_spec(byte_of(c.v.z) as nat) + seq![10u8]
}

/// The bytes of the first n pixels of a row.
pub open spec fn row_bytes_upto(row: Seq<Color>, n: nat) -> Seq<u8>
    recommends
        n <= row.len(),
    decreases n,
{
    if n == 0 {
        Seq::empty()
    } else {
        row_bytes_upto(row, (n - 1) as nat) + pixel_line_spec(row[n - 1])
    }
}

/// The bytes of the first n rows of the image.
pub open spec fn image_bytes_upto(rows: Seq<Seq<Color>>, n: nat) -> Seq<u8>
    recommends
        n <= rows.len(),
    decreases n,
{
    if n == 0 {
        Seq::empty()
    } else {
        image_bytes_upto(rows, (n - 1) as nat) + row_bytes_upto(
            rows[n - 1],
            rows[n - 1].len(),
        )
    }
}

/// The header: `P3\n<width> <height>\n255\n`.
pub open spec fn header_spec(width: usize, height: usize) -> Seq<u8> {
    seq![80u8, 51u8, 10u8] + dec_spec(width as nat) + seq![32u8] + dec_spec(height as nat)
        + seq![10u8, 50u8, 53u8, 53u8, 10u8]
}

/// The whole pixel stream: header, then every row's pixel lines.
pub open spec fn ppm_spec(width: usize, height: usize, rows: Seq<Seq<Color>>) -> Seq<u8> {
    header_spec(width, height) + image_bytes_upto(rows, rows.len())
}

/// Append the decimal digits of n.
pub fn push_decimal(out: &mut Vec<u8>, n: usize)
    ensures
        final(out)@ == old(out)@ + dec_spec(n as nat),
    decreases n,
{
    if n >= 10 {
        push_decimal(out, n / 10);
    }
    out.push(48 + (n % 10) as u8);
    proof {
        if n < 10 {
            assert(dec_spec(n as nat) =~= seq![(48 + n) as u8]);
        }
        assert(out@ =~= old(out)@ + dec_spec(n as nat));
    }
}

/// Append one pixel's line.
pub fn push_pixel_line(out: &mut Vec<u8>, c: &Color)
    requires
        c.valid(),
    ensures
        final(out)@ == old(out)@ + pixel_line_spec(*c),
{
    let (r, g, b) = c.to_bytes();
    out.push(32);
    push_decimal(out, r as usize);
    out.push(32);
    push_decimal(out, g as usize);
    out.push(32);
    push_decimal(out, b as usize);
    out.push(10);
    proof {
        assert(out@ =~= old(out)@ + pixel_line_spec(*c));
    }
}

/// Serialize the whole image.
pub fn ppm_bytes(width: usize, height: usize, rows: &Vec<Vec<Color>>) -> (out: Vec<u8>)
    requires
        rows@.len() == height,
        forall|j: int, i: int|
            0 <= j < rows@.len() && 0 <= i < rows@[j]@.len() ==> (#[trigger] rows@[j]@[i]).valid(),
    ensures
        out@ == ppm_spec(width, height, rows@.map_values(|row: Vec<Color>| row@)),
{
    let ghost grows = rows@.map_values(|row: Vec<Color>| row@);
    let mut out: Vec<u8> = Vec::new();
    out.push(80);
    out.push(51);
    out.push(10);
    push_decimal(&mut out, width);
    out.push(32);
    push_decimal(&mut out, height);
    out.push(10);
    out.push(50);
    out.push(53);
    out.push(53);
    out.push(10);
    proof {
        assert(out@ =~= header_spec(width, height));
    }
    let mut j: usize = 0;
    while j < height
        invariant
            j <= height,
            rows@.len() == height,
            grows == rows@.map_values(|row: Vec<Color>| row@),
            forall|j2: int, i: int|
                0 <= j2 < rows@.len() && 0 <= i < rows@[j2]@.len() ==> (#[trigger] rows@[j2]@[i]).valid(),
            out@ == header_spec(width, height) + image_bytes_upto(grows, j as nat),
        decreases height - j,
    {
        let row = &rows[j];
        let n = row.len();
        let mut i: usize = 0;
        while i < n
            invariant
                i <= n,
                j < height,
                rows@.len() == height,
                n == rows@[j as int]@.len(),
                row@ =~= rows@[j as int]@,
                grows == rows@.map_values(|r2: Vec<Color>| r2@),
                forall|j2: int, i2: int|
                    0 <= j2 < rows@.len() && 0 <= i2 < rows@[j2]@.len() ==> (#[trigger] rows@[j2]@[i2]).valid(),
                out@ == header_spec(width, height) + image_bytes_upto(grows, j as nat)
                    + row_bytes_upto(rows@[j as int]@, i as nat),
            decreases n - i,
        {
            proof {
                assert(rows@[j as int]@[i as int].valid());
            }
            push_pixel_line(&mut out, &row[i]);
            i = i + 1;
        }
        proof {
            assert(grows[j as int] =~= rows@[j as int]@);
            assert(image_bytes_upto(grows, (j + 1) as nat) =~= image_bytes_upto(grows, j as nat)
                + row_bytes_upto(grows[j as int], grows[j as int].len()));
        }
        j = j + 1;
    }
    proof {
        assert(grows.len() == height);
    }
    out
}

} // verus!
