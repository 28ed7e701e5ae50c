//! Modbus RTU frame codec: request construction, response validation and
//! register extraction, with the CRC-16 framing stated as a spec function.

use vstd::prelude::*;

verus! {

/// One shift step of the CRC-16/MODBUS bit loop.
pub open spec fn crc16_shift(c: u16) -> u16 {
    if c & 1 == 1 {
        (c >> 1) ^ 0xA001
    } else {
        c >> 1
    }
}

/// `crc16_shift` applied `n` times.
pub open spec fn crc16_shifts(c: u16, n: nat) -> u16
    decreases n,
{
    if n == 0 {
        c
    } else {
        crc16_shift(crc16_shifts(c, (n - 1) as nat))
    }
}

/// Folding one byte into a running CRC-16/MODBUS value.
pub open spec fn crc16_update(c: u16, b: u8) -> u16 {
    crc16_shifts(c ^ (b as u16), 8)
}

/// CRC-16/MODBUS over a byte sequence, starting from 0xFFFF.
pub open spec fn crc16_spec(bytes: Seq<u8>) -> u16
    decreases bytes.len(),
{
    if bytes.len() == 0 {
        0xFFFF
    } else {
        crc16_update(crc16_spec(bytes.drop_last()), bytes.last())
    }
}

/// High byte of a 16-bit word.
pub open spec fn hi_byte(x: u16) -> u8 {
    (x >> 8) as u8
}

/// Low byte of a 16-bit word.
pub open spec fn lo_byte(x: u16) -> u8 {
    (x & 0xFF) as u8
}

/// A frame body followed by its CRC, low byte first.
pub open spec fn with_crc(body: Seq<u8>) -> Seq<u8> {
    body + seq![lo_byte(crc16_spec(body)), hi_byte(crc16_spec(body))]
}

/// Request frame reading `count` holding registers starting at `addr`.
pub open spec fn read_request_bytes(unit_id: u8, addr: u16, count: u16) -> Seq<u8> {
    with_crc(seq![unit_id, 0x03u8, hi_byte(addr), lo_byte(addr), hi_byte(count), lo_byte(count)])
}

/// Request frame writing `value` to the single holding register `addr`.
pub open spec fn write_single_request_bytes(unit_id: u8, addr: u16, value: u16) -> Seq<u8> {
    with_crc(seq![unit_id, 0x06u8, hi_byte(addr), lo_byte(addr), hi_byte(value), lo_byte(value)])
}

/// Register values flattened to big-endian byte pairs.
pub open spec fn regs_to_bytes(regs: Seq<u16>) -> Seq<u8>
    decreases regs.len(),
{
    if regs.len() == 0 {
        Seq::<u8>::empty()
    } else {
        regs_to_bytes(regs.drop_last()) + seq![hi_byte(regs.last()), lo_byte(regs.last())]
    }
}

/// Request frame writing `regs` to consecutive holding registers from `addr`.
pub open spec fn write_bulk_request_bytes(unit_id: u8, addr: u16, regs: Seq<u16>) -> Seq<u8> {
    with_crc(
        seq![
            unit_id,
            0x10u8,
            hi_byte(addr),
            lo_byte(addr),
            hi_byte(regs.len() as u16),
            lo_byte(regs.len() as u16),
            (2 * regs.len()) as u8,
        ] + regs_to_bytes(regs),
    )
}

/// The response frame a device sends for a read of `values.len()` holding
/// registers: unit id, function code, byte count, the values big-endian,
/// and the CRC trailer.
pub open spec fn read_response_bytes(unit_id: u8, values: Seq<u16>) -> Seq<u8> {
    with_crc(seq![unit_id, 0x03u8, (2 * values.len()) as u8] + regs_to_bytes(values))
}

/// The CRC trailer of `f` (its last two bytes, low byte first) matches the
/// CRC-16/MODBUS of everything before it.
pub open spec fn crc_ok(f: Seq<u8>) -> bool {
    &&& f.len() >= 2
    &&& f[f.len() - 2] == lo_byte(crc16_spec(f.take(f.len() - 2)))
    &&& f[f.len() - 1] == hi_byte(crc16_spec(f.take(f.len() - 2)))
}

/// A structurally valid read-holding-registers response for `count` registers
/// from unit `unit_id`: correct length, header and CRC.
pub open spec fn valid_read_response(f: Seq<u8>, unit_id: u8, count: u16) -> bool {
    &&& f.len() == 5 + 2 * count
    &&& f[0] == unit_id
    &&& f[1] == 0x03u8
    &&& f[2] == (2 * count) as u8
    &&& crc_ok(f)
}

/// The register values carried by a read response frame.
pub open spec fn response_values(f: Seq<u8>, count: int) -> Seq<u16> {
    Seq::new(count as nat, |k: int| ((f[3 + 2 * k] as u16) << 8) | (f[4 + 2 * k] as u16))
}

/// CRC-16/MODBUS over the first `n` bytes of `data`.
pub fn crc16_upto(data: &[u8], n: usize) -> (r: u16)
    requires
        n <= data@.len(),
    ensures
        r == crc16_spec(data@.take(n as int)),
{
    let mut crc: u16 = 0xFFFF;
    let mut i: usize = 0;
    while i < n
        invariant
            i <= n <= data@.len(),
            crc == crc16_spec(data@.take(i as int)),
        decreases n - i,
    {
        let ghost prefix = data@.take(i as int);
        let b: u8 = data[i];
        crc = crc ^ (b as u16);
        let mut j: usize = 0;
        while j < 8
            invariant
                j <= 8,
                crc == crc16_shifts(crc16_spec(prefix) ^ (b as u16), j as nat),
            decreases 8 - j,
        {
            if crc & 1 == 1 {
                crc = (crc >> 1) ^ 0xA001;
            } else {
                crc = crc >> 1;
            }
            j = j + 1;
        }
        proof {
            assert(data@.take(i + 1).drop_last() =~= prefix);
            assert(data@.take(i + 1).last() == data@[i as int]);
        }
        i = i + 1;
    }
    crc
}

/// CRC-16/MODBUS over a whole byte slice.
pub fn crc16(data: &[u8]) -> (r: u16)
    ensures
        r == crc16_spec(data@),
{
    let n = data.len();
    let r = crc16_upto(data, n);
    proof {
        assert(data@.take(n as int) =~= data@);
    }
    r
}

/// Appends the CRC of everything already in `frame`, low byte first.
fn push_crc(frame: &mut Vec<u8>)
    ensures
        final(frame)@ == with_crc(old(frame)@),
{
    let crc = crc16(frame.as_slice());
    frame.push((crc & 0xFF) as u8);
    frame.push(((crc >> 8) & 0xFF) as u8);
    proof {
        assert(((crc >> 8) & 0xFF) as u8 == (crc >> 8) as u8) by (bit_vector);
        assert(frame@ =~= with_crc(old(frame)@));
    }
}

/// Builds the request frame reading `count` holding registers from `addr`.
pub fn build_read_request(unit_id: u8, addr: u16, count: u16) -> (r: Vec<u8>)
    ensures
        r@ == read_request_bytes(unit_id, addr, count),
        r@.len() == 8,
{
    let mut frame: Vec<u8> = Vec::new();
    frame.push(unit_id);
    frame.push(0x03u8);
    frame.push(((addr >> 8) & 0xFF) as u8);
    frame.push((addr & 0xFF) as u8);
    frame.push(((count >> 8) & 0xFF) as u8);
    frame.push((count & 0xFF) as u8);
    proof {
        assert(((addr >> 8) & 0xFF) as u8 == hi_byte(addr)) by (bit_vector);
        assert(((count >> 8) & 0xFF) as u8 == hi_byte(count)) by (bit_vector);
        assert(frame@ =~= seq![
            unit_id,
            0x03u8,
            hi_byte(addr),
            lo_byte(addr),
            hi_byte(count),
            lo_byte(count),
        ]);
    }
    push_crc(&mut frame);
    frame
}

/// Builds the request frame writing `value` to the single register `addr`.
pub fn build_write_single_request(unit_id: u8, addr: u16, value: u16) -> (r: Vec<u8>)
    ensures
        r@ == write_single_request_bytes(unit_id, addr, value),
        r@.len() == 8,
{
    let mut frame: Vec<u8> = Vec::new();
    frame.push(unit_id);
    frame.push(0x06u8);
    frame.push(((addr >> 8) & 0xFF) as u8);
    frame.push((addr & 0xFF) as u8);
    frame.push(((value >> 8) & 0xFF) as u8);
    frame.push((value & 0xFF) as u8);
    proof {
        assert(((addr >> 8) & 0xFF) as u8 == hi_byte(addr)) by (bit_vector);
        assert(((value >> 8) & 0xFF) as u8 == hi_byte(value)) by (bit_vector);
        assert(frame@ =~= seq![
            unit_id,
            0x06u8,
            hi_byte(addr),
            lo_byte(addr),
            hi_byte(value),
            lo_byte(value),
        ]);
    }
    push_crc(&mut frame);
    frame
}

/// Builds the request frame writing `regs` to consecutive registers from `addr`.
pub fn build_write_bulk_request(unit_id: u8, addr: u16, regs: &Vec<u16>) -> (r: Vec<u8>)
    requires
        1 <= regs@.len() <= 123,
    ensures
        r@ == write_bulk_request_bytes(unit_id, addr, regs@),
        r@.len() == 9 + 2 * regs@.len(),
{
    let count: u16 = regs.len() as u16;
    let mut frame: Vec<u8> = Vec::new();
    frame.push(unit_id);
    frame.push(0x10u8);
    frame.push(((addr >> 8) & 0xFF) as u8);
    frame.push((addr & 0xFF) as u8);
    frame.push(((count >> 8) & 0xFF) as u8);
    frame.push((count & 0xFF) as u8);
    let byte_count: u16 = 2 * count;
    frame.push((byte_count & 0xFF) as u8);
    let ghost header = frame@;
    let mut k: usize = 0;
    while k < regs.len()
        invariant
            k <= regs@.len() <= 123,
            count == regs@.len(),
            frame@ == header + regs_to_bytes(regs@.take(k as int)),
            header.len() == 7,
        decreases regs@.len() - k,
    {
        let v: u16 = regs[k];
        frame.push(((v >> 8) & 0xFF) as u8);
        frame.push((v & 0xFF) as u8);
        proof {
            assert(((v >> 8) & 0xFF) as u8 == hi_byte(v)) by (bit_vector);
            assert(regs@.take(k + 1).drop_last() =~= regs@.take(k as int));
            assert(frame@ =~= header + regs_to_bytes(regs@.take(k + 1)));
        }
        k = k + 1;
    }
    proof {
        assert(regs@.take(regs@.len() as int) =~= regs@);
        assert(((addr >> 8) & 0xFF) as u8 == hi_byte(addr)) by (bit_vector);
        assert(((count >> 8) & 0xFF) as u8 == hi_byte(count)) by (bit_vector);
        assert((byte_count & 0xFF) as u8 == byte_count as u8 && byte_count & 0xFF < 256) by (
        bit_vector);
        assert(byte_count as u8 == (2 * regs@.len()) as u8);
        assert(header =~= seq![
            unit_id,
            0x10u8,
            hi_byte(addr),
            lo_byte(addr),
            hi_byte(count),
            lo_byte(count),
            (2 * regs@.len()) as u8,
        ]);
        lemma_regs_to_bytes_len(regs@);
    }
    push_crc(&mut frame);
    frame
}

/// The flattened byte form of a register sequence is twice as long.
pub proof fn lemma_regs_to_bytes_len(regs: Seq<u16>)
    ensures
        regs_to_bytes(regs).len() == 2 * regs.len(),
    decreases regs.len(),
{
    if regs.len() > 0 {
        lemma_regs_to_bytes_len(regs.drop_last());
    }
}

/// Validates a read-holding-registers response and extracts its register
/// values. Succeeds exactly on structurally valid, CRC-correct frames;
/// anything else is an invalid-response error.
pub fn parse_read_response(frame: &[u8], unit_id: u8, count: u16) -> (r: Result<
    Vec<u16>,
    crate::error::Error,
>)
    requires
        1 <= count <= 125,
    ensures
        r is Ok <==> valid_read_response(frame@, unit_id, count),
        r matches Ok(v) ==> v@ == response_values(frame@, count as int),
        r matches Err(e) ==> e == crate::error::Error::InvalidResponse,
{
    let expected_len: usize = 5 + 2 * (count as usize);
    if frame.len() != expected_len {
        return Err(crate::error::Error::InvalidResponse);
    }
    if frame[0] != unit_id || frame[1] != 0x03u8 {
        return Err(crate::error::Error::InvalidResponse);
    }
    let double_count: u16 = 2 * count;
    proof {
        assert((double_count & 0xFF) as u8 == double_count as u8 && double_count & 0xFF < 256) by (
        bit_vector);
        assert(double_count == 2 * count);
    }
    let byte_count: u8 = (double_count & 0xFF) as u8;
    if frame[2] != byte_count {
        return Err(crate::error::Error::InvalidResponse);
    }
    let crc = crc16_upto(frame, expected_len - 2);
    proof {
        assert(((crc >> 8) & 0xFF) as u8 == (crc >> 8) as u8 && (crc >> 8) & 0xFF < 256 && crc
            & 0xFF < 256) by (bit_vector);
    }
    if frame[expected_len - 2] != (crc & 0xFF) as u8 {
        return Err(crate::error::Error::InvalidResponse);
    }
    if frame[expected_len - 1] != ((crc >> 8) & 0xFF) as u8 {
        return Err(crate::error::Error::InvalidResponse);
    }
    proof {
        assert(crc_ok(frame@));
    }
    let mut values: Vec<u16> = Vec::new();
    let mut k: usize = 0;
    while k < count as usize
        invariant
            k <= count,
            frame@.len() == 5 + 2 * count,
            values@ =~= response_values(frame@, count as int).take(k as int),
        decreases count - k,
    {
        let v: u16 = ((frame[3 + 2 * k] as u16) << 8) | (frame[4 + 2 * k] as u16);
        values.push(v);
        proof {
            assert(values@ =~= response_values(frame@, count as int).take(k + 1));
        }
        k = k + 1;
    }
    proof {
        assert(values@ =~= response_values(frame@, count as int));
    }
    Ok(values)
}

/// Byte-for-byte equality of two slices, used to check the half-duplex echo
/// of a transmitted request.
pub fn bytes_equal(a: &[u8], b: &[u8]) -> (r: bool)
    ensures
        r == (a@ == b@),
{
    if a.len() != b.len() {
        proof {
            assert(a@.len() != b@.len());
        }
        return false;
    }
    let mut i: usize = 0;
    while i < a.len()
        invariant
            i <= a@.len(),
            a@.len() == b@.len(),
            forall|k: int| 0 <= k < i ==> a@[k] == b@[k],
        decreases a@.len() - i,
    {
        if a[i] != b[i] {
            return false;
        }
        i = i + 1;
    }
    proof {
        assert(a@ =~= b@);
    }
    true
}

/// The pair of bytes at positions `2k` and `2k + 1` of the flattened form
/// is the big-endian split of register `k`.
pub proof fn lemma_regs_to_bytes_index(regs: Seq<u16>, k: int)
    requires
        0 <= k < regs.len(),
    ensures
        regs_to_bytes(regs)[2 * k] == hi_byte(regs[k]),
        regs_to_bytes(regs)[2 * k + 1] == lo_byte(regs[k]),
    decreases regs.len(),
{
    lemma_regs_to_bytes_len(regs);
    lemma_regs_to_bytes_len(regs.drop_last());
    if k < regs.len() - 1 {
        lemma_regs_to_bytes_index(regs.drop_last(), k);
    }
}

/// Splitting a register value into its bytes and recombining them is the
/// identity.
pub proof fn lemma_hi_lo_recombine(v: u16)
    ensures
        ((hi_byte(v) as u16) << 8) | (lo_byte(v) as u16) == v,
{
    assert(((((v >> 8) as u8) as u16) << 8) | (((v & 0xFF) as u8) as u16) == v) by (bit_vector);
}

/// Law: every well-formed read response validates and parses back to
/// exactly the register values it carries, for every unit id and every
/// value sequence a response can frame.
pub proof fn lemma_read_response_round_trip(unit_id: u8, values: Seq<u16>)
    requires
        values.len() <= 125,
    ensures
        valid_read_response(read_response_bytes(unit_id, values), unit_id, values.len() as u16),
        response_values(read_response_bytes(unit_id, values), values.len() as int) == values,
{
    let body = seq![unit_id, 0x03u8, (2 * values.len()) as u8] + regs_to_bytes(values);
    let f = read_response_bytes(unit_id, values);
    lemma_regs_to_bytes_len(values);
    assert(f.take(f.len() - 2) =~= body);
    assert(crc_ok(f));
    assert forall|k: int| 0 <= k < values.len() implies response_values(f, values.len() as int)[k]
        == values[k] by {
        lemma_regs_to_bytes_index(values, k);
        assert(f[3 + 2 * k] == hi_byte(values[k]));
        assert(f[4 + 2 * k] == lo_byte(values[k]));
        lemma_hi_lo_recombine(values[k]);
    }
    assert(response_values(f, values.len() as int) =~= values);
}

/// The address and value fields carried by a write-single-register frame.
pub open spec fn write_single_fields(f: Seq<u8>) -> (u16, u16) {
    (((f[2] as u16) << 8) | (f[3] as u16), ((f[4] as u16) << 8) | (f[5] as u16))
}

/// Law: encoding a write-single-register request and reading its address and
/// value fields back yields the original pair, for every valid input.
pub proof fn lemma_write_single_round_trip(unit_id: u8, addr: u16, value: u16)
    ensures
        write_single_fields(write_single_request_bytes(unit_id, addr, value)) == (addr, value),
{
    let f = write_single_request_bytes(unit_id, addr, value);
    assert(f[2] == hi_byte(addr) && f[3] == lo_byte(addr) && f[4] == hi_byte(value) && f[5]
        == lo_byte(value));
    assert((((addr >> 8) as u8 as u16) << 8) | ((addr & 0xFF) as u8 as u16) == addr)
        by (bit_vector);
    assert((((value >> 8) as u8 as u16) << 8) | ((value & 0xFF) as u8 as u16) == value)
        by (bit_vector);
}

} // verus!
