use vstd::prelude::*;

verus! {

/// The ASCII decimal representation of `n`: most significant digit first,
/// no leading zeros, and the single digit `0` for zero.
pub open spec fn decimal(n: nat) -> Seq<u8>
    decreases n,
{
    if n < 10 {
        seq![(48 + n) as u8]
    } else {
        decimal(n / 10).push((48 + n % 10) as u8)
    }
}

/// The record that is logged for one loop iteration:
/// `<timestamp>,count,<counter>` followed by a newline (bytes 44 and 10 are
/// `,` and `\n` in ASCII).
pub open spec fn csv_line(timestamp: u64, counter: u32) -> Seq<u8> {
    decimal(timestamp as nat) + seq![44u8, 99, 111, 117, 110, 116, 44] + decimal(
        counter as nat,
    ) + seq![10u8]
}

/// `buffer` with its first bytes replaced by `line`, as far as `buffer` reaches.
pub open spec fn overlay(buffer: Seq<u8>, line: Seq<u8>) -> Seq<u8> {
    Seq::new(buffer.len(), |i: int| if i < line.len() { line[i] } else { buffer[i] })
}

/// Relies on itoa::Buffer::format: it prints an integer as its decimal string.
#[verifier::external_body]
fn decimal_digits(n: u64) -> (r: Vec<u8>)
    ensures
        r@ == decimal(n as nat),
{
    let mut buf = itoa::Buffer::new();
    buf.format(n).as_bytes().to_vec()
}

/// Writes the record for `(timestamp, counter)` at the start of `buffer` and
/// returns the number of bytes written. A record longer than `buffer` is cut
/// at its end; nothing past the buffer's bound is ever written.
pub fn format_csv_line(buffer: &mut [u8], timestamp: u64, counter: u32) -> (r: usize)
    ensures
        r as int == if csv_line(timestamp, counter).len() <= old(buffer)@.len() {
            csv_line(timestamp, counter).len() as int
        } else {
            old(buffer)@.len() as int
        },
        final(buffer)@ == overlay(old(buffer)@, csv_line(timestamp, counter)),
{
    let mut line = decimal_digits(timestamp);
    let mut sep: Vec<u8> = vec![44u8, 99, 111, 117, 110, 116, 44];
    line.append(&mut sep);
    let mut digits = decimal_digits(counter as u64);
    line.append(&mut digits);
    line.push(10u8);
    assert(line@ == csv_line(timestamp, counter));

    let n: usize = if line.len() <= buffer.len() {
        line.len()
    } else {
        buffer.len()
    };
    let ghost before = buffer@;
    let mut i: usize = 0;
    while i < n
        invariant
            n <= line@.len(),
            n <= before.len(),
            n == line@.len() || n == before.len(),
            i <= n,
            buffer@.len() == before.len(),
            forall|j: int| 0 <= j < i ==> buffer@[j] == line@[j],
            forall|j: int| i <= j < before.len() ==> buffer@[j] == before[j],
        decreases n - i,
    {
        buffer[i] = line[i];
        i = i + 1;
    }
    assert(buffer@ =~= overlay(before, line@));
    n
}

} // verus!
