//! The machine's flat memory: 65536 bytes addressed by a 16-bit cursor whose
//! arithmetic wraps around, so that no access is ever out of range.

use vstd::prelude::*;

verus! {

/// The number of bytes of memory.
pub const MEMORY_SIZE: usize = 0x1_0000;

/// The memory of a machine.
pub type Memory = Box<[u8; 0x1_0000]>;

/// The address `k` bytes after `at`, wrapping around the end of memory.
pub open spec fn address(at: u16, k: int) -> int {
    (at + k) % 0x1_0000
}

/// The `n` bytes found from `at` on, wrapping around the end of memory.
pub open spec fn read_at(mem: Seq<u8>, at: u16, n: nat) -> Seq<u8> {
    Seq::new(n, |k: int| mem[address(at, k)])
}

/// Which of `len` bytes stored from `at` on ends up at the address `a`:
/// the last one that was stored there. Meant for an address that one of
/// them reached.
pub open spec fn stored_index(a: int, at: u16, len: nat) -> int {
    let first = (a - at) % 0x1_0000;
    first + 0x1_0000 * ((len - 1 - first) / 0x1_0000)
}

/// Memory after `bytes` was stored from `at` on, one byte after the other,
/// wrapping around the end of memory: where more bytes are stored than
/// memory holds, the later ones replace the earlier ones.
pub open spec fn write_at(mem: Seq<u8>, at: u16, bytes: Seq<u8>) -> Seq<u8> {
    Seq::new(
        mem.len(),
        |a: int|
            if (a - at) % 0x1_0000 < bytes.len() {
                bytes[stored_index(a, at, bytes.len())]
            } else {
                mem[a]
            },
    )
}

/// The 16-bit big-endian value stored at `at`.
pub open spec fn read_u16_at(mem: Seq<u8>, at: u16) -> u16 {
    crate::bits::u16_from_be(mem[at as int], mem[address(at, 1)])
}

/// The big-endian value that the eight bytes from `idx` on make up, the
/// byte at `idx` being the most significant; the addresses wrap around at
/// 65536.
pub open spec fn u64_at(bytes: Seq<u8>, idx: u16) -> u64 {
    crate::bits::u64_from_be(Seq::new(8, |k: int| bytes[address(idx, k)]))
}

/// How long the line at `at` is: the number of bytes before the first zero
/// byte, looking at no more than `budget` bytes.
pub open spec fn line_len(mem: Seq<u8>, at: u16, budget: nat) -> nat
    decreases budget,
{
    if budget == 0 || mem[at as int] == 0 {
        0
    } else {
        1 + line_len(mem, address(at, 1) as u16, (budget - 1) as nat)
    }
}

/// The line at `at`: the bytes from there up to the first zero byte,
/// wrapping around the end of memory, and all of memory once around where
/// it holds no zero byte.
pub open spec fn line_at(mem: Seq<u8>, at: u16) -> Seq<u8> {
    read_at(mem, at, line_len(mem, at, 0x1_0000))
}

/// A fresh memory, every byte zero.
pub fn zeroed_memory() -> (memory: Memory)
    ensures
        memory@ == Seq::new(0x1_0000, |a: int| 0u8),
{
    let memory: Memory = Box::new([0u8; 0x1_0000]);
    assert(memory@ =~= Seq::new(0x1_0000, |a: int| 0u8));
    memory
}

/// Reads the 16-bit big-endian value at `at`; the second byte of a value at
/// address 65535 is the byte at address 0.
pub fn read_u16(memory: &Memory, at: u16) -> (value: u16)
    ensures
        value == read_u16_at(memory@, at),
{
    crate::bits::u16_of_be(memory[at as usize], memory[at.wrapping_add(1) as usize])
}

/// Copies the `n` bytes from `at` on out of memory, wrapping around its end.
pub fn read_bytes(memory: &Memory, at: u16, n: usize) -> (bytes: Vec<u8>)
    ensures
        bytes@ == read_at(memory@, at, n as nat),
{
    let mut bytes: Vec<u8> = Vec::new();
    let mut cursor: u16 = at;
    let mut k: usize = 0;
    while k < n
        invariant
            k <= n,
            cursor == address(at, k as int),
            bytes@ == read_at(memory@, at, k as nat),
        decreases n - k,
    {
        bytes.push(memory[cursor as usize]);
        cursor = cursor.wrapping_add(1);
        k += 1;
        assert(bytes@ =~= read_at(memory@, at, k as nat));
    }
    bytes
}

/// Copies the line at `at` out of memory: the bytes up to the first zero
/// byte.
pub fn read_line(memory: &Memory, at: u16) -> (line: Vec<u8>)
    ensures
        line@ == line_at(memory@, at),
{
    let mut line: Vec<u8> = Vec::new();
    let mut cursor: u16 = at;
    let mut k: usize = 0;
    while k < 0x1_0000 && memory[cursor as usize] != 0
        invariant
            k <= 0x1_0000,
            cursor == address(at, k as int),
            line@ == read_at(memory@, at, k as nat),
            line_len(memory@, at, 0x1_0000) == k + line_len(
                memory@,
                cursor,
                (0x1_0000 - k) as nat,
            ),
        decreases 0x1_0000 - k,
    {
        line.push(memory[cursor as usize]);
        cursor = cursor.wrapping_add(1);
        k += 1;
        assert(line@ =~= read_at(memory@, at, k as nat));
    }
    line
}

/// Stores `bytes` from `at` on, wrapping around the end of memory.
pub fn write_bytes(memory: &mut Memory, at: u16, bytes: &[u8])
    ensures
        final(memory)@ == write_at(old(memory)@, at, bytes@),
{
    let mut cursor: u16 = at;
    let mut k: usize = 0;
    assert(memory@ =~= write_at(old(memory)@, at, bytes@.take(0)));
    while k < bytes.len()
        invariant
            k <= bytes.len(),
            cursor == address(at, k as int),
            memory@ == write_at(old(memory)@, at, bytes@.take(k as int)),
        decreases bytes.len() - k,
    {
        proof {
            lemma_store_one_more(old(memory)@, at, bytes@, k as int);
        }
        memory[cursor as usize] = bytes[k];
        cursor = cursor.wrapping_add(1);
        k += 1;
    }
    assert(bytes@.take(k as int) =~= bytes@);
}

/// Storing the first `k + 1` of `bytes` is storing the first `k` of them and
/// then the next one at the next address.
#[verifier::rlimit(50)]
proof fn lemma_store_one_more(mem: Seq<u8>, at: u16, bytes: Seq<u8>, k: int)
    requires
        mem.len() == 0x1_0000,
        0 <= k < bytes.len(),
    ensures
        write_at(mem, at, bytes.take(k + 1)) == write_at(mem, at, bytes.take(k)).update(
            address(at, k),
            bytes[k],
        ),
{
    let before = write_at(mem, at, bytes.take(k));
    let after = write_at(mem, at, bytes.take(k + 1));
    let target = address(at, k);
    assert forall|a: int| 0 <= a < 0x1_0000 implies after[a] == before.update(
        target,
        bytes[k],
    )[a] by {
        let first = (a - at) % 0x1_0000;
        let turns = k / 0x1_0000;
        let rest = k % 0x1_0000;
        assert(k == 0x1_0000 * turns + rest);
        if a == target {
            assert(first == rest);
            assert((k - first) / 0x1_0000 == turns);
            assert(stored_index(a, at, (k + 1) as nat) == k);
        } else {
            assert(first != rest);
            if first < k {
                assert((k - first) / 0x1_0000 == (k - 1 - first) / 0x1_0000) by {
                    let gap = k - first;
                    let full = gap / 0x1_0000;
                    assert(gap == 0x1_0000 * full + gap % 0x1_0000);
                    assert(gap % 0x1_0000 != 0) by {
                        if gap % 0x1_0000 == 0 {
                            assert(k == 0x1_0000 * full + first);
                            assert(rest == first);
                        }
                    }
                    assert(gap - 1 == 0x1_0000 * full + (gap % 0x1_0000 - 1));
                }
                assert(stored_index(a, at, (k + 1) as nat) == stored_index(a, at, k as nat));
            }
        }
    }
    assert(after =~= before.update(target, bytes[k]));
}

/// Reads eight bytes of `slice` from `idx` on as one big-endian 64-bit
/// value, the byte at `idx` being the most significant. The addresses wrap
/// around at 65536, so the slice has to hold each of the eight.
pub fn index_u64(slice: &[u8], idx: u16) -> (value: u64)
    requires
        forall|k: int| 0 <= k < 8 ==> address(idx, k) < slice@.len(),
    ensures
        value == u64_at(slice@, idx),
{
    assert(address(idx, 0) < slice@.len() && address(idx, 1) < slice@.len() && address(idx, 2)
        < slice@.len() && address(idx, 3) < slice@.len() && address(idx, 4) < slice@.len()
        && address(idx, 5) < slice@.len() && address(idx, 6) < slice@.len() && address(idx, 7)
        < slice@.len());
    let ret: [u8; 8] = [
        slice[idx as usize],
        slice[idx.wrapping_add(1) as usize],
        slice[idx.wrapping_add(2) as usize],
        slice[idx.wrapping_add(3) as usize],
        slice[idx.wrapping_add(4) as usize],
        slice[idx.wrapping_add(5) as usize],
        slice[idx.wrapping_add(6) as usize],
        slice[idx.wrapping_add(7) as usize],
    ];
    assert(ret@ =~= Seq::new(8, |k: int| slice@[address(idx, k)]));
    crate::bits::u64_of_be(&ret)
}

/// What is stored can be read back: the bytes found at `at` after storing
/// `bytes` there are `bytes`, and every address outside the stored range
/// keeps its byte.
pub proof fn lemma_read_after_write(mem: Seq<u8>, at: u16, bytes: Seq<u8>)
    requires
        mem.len() == 0x1_0000,
        bytes.len() <= 0x1_0000,
    ensures
        write_at(mem, at, bytes).len() == 0x1_0000,
        read_at(write_at(mem, at, bytes), at, bytes.len()) == bytes,
        forall|a: int|
            0 <= a < 0x1_0000 && (a - at) % 0x1_0000 >= bytes.len() ==> write_at(mem, at, bytes)[a]
                == mem[a],
{
    assert(read_at(write_at(mem, at, bytes), at, bytes.len()) =~= bytes);
}

/// Address arithmetic wraps: the address after 65535 is 0, and every address
/// lies inside memory.
pub proof fn lemma_address_wraps(at: u16, k: int)
    ensures
        0 <= address(at, k) < 0x1_0000,
        address(0xFFFF, 1) == 0,
        k >= 0 ==> address(at, k + 1) == address(address(at, k) as u16, 1),
{
}

/// A line ends at the first zero byte: no byte of the line at `at` is zero,
/// and the byte after the line is zero unless the line is all of memory.
pub proof fn lemma_line_ends_at_zero(mem: Seq<u8>, at: u16)
    requires
        mem.len() == 0x1_0000,
    ensures
        line_at(mem, at).len() <= 0x1_0000,
        forall|k: int| 0 <= k < line_at(mem, at).len() ==> line_at(mem, at)[k] != 0,
        line_at(mem, at).len() < 0x1_0000 ==> mem[address(at, line_at(mem, at).len() as int)] == 0,
{
    lemma_line_within_budget(mem, at, 0x1_0000);
    assert forall|k: int| 0 <= k < line_at(mem, at).len() implies line_at(mem, at)[k] != 0 by {
        assert(mem[address(at, k)] != 0);
    }
}

proof fn lemma_line_within_budget(mem: Seq<u8>, at: u16, budget: nat)
    requires
        mem.len() == 0x1_0000,
    ensures
        line_len(mem, at, budget) <= budget,
        forall|k: int| 0 <= k < line_len(mem, at, budget) ==> #[trigger] mem[address(at, k)] != 0,
        line_len(mem, at, budget) < budget ==> mem[address(at, line_len(mem, at, budget) as int)]
            == 0,
    decreases budget,
{
    if budget > 0 && mem[at as int] != 0 {
        let next = address(at, 1) as u16;
        lemma_line_within_budget(mem, next, (budget - 1) as nat);
        assert forall|k: int| 0 <= k < line_len(mem, at, budget) implies #[trigger] mem[address(
            at,
            k,
        )] != 0 by {
            if k > 0 {
                assert(address(at, k) == address(next, k - 1));
            }
        }
        let rest = line_len(mem, next, (budget - 1) as nat);
        assert(address(at, rest as int + 1) == address(next, rest as int));
    }
}

/// Storing one byte is replacing the byte at its address.
pub proof fn lemma_store_one(mem: Seq<u8>, at: u16, byte: u8)
    requires
        mem.len() == 0x1_0000,
    ensures
        write_at(mem, at, seq![byte]) == mem.update(at as int, byte),
{
    assert(write_at(mem, at, seq![byte]) =~= mem.update(at as int, byte));
}

/// Moving on from an address in two parts is moving on by their sum.
pub proof fn lemma_address_adds(at: u16, first: int, then: int)
    requires
        first >= 0,
        then >= 0,
    ensures
        address(address(at, first) as u16, then) == address(at, first + then),
{
}

/// Storing one run of bytes and then another right behind it is storing the
/// two as one run.
#[verifier::rlimit(50)]
pub proof fn lemma_store_in_sequence(mem: Seq<u8>, at: u16, first: Seq<u8>, second: Seq<u8>)
    requires
        mem.len() == 0x1_0000,
    ensures
        write_at(write_at(mem, at, first), address(at, first.len() as int) as u16, second)
            == write_at(mem, at, first + second),
    decreases second.len(),
{
    let stored = write_at(mem, at, first);
    let next = address(at, first.len() as int) as u16;
    if second.len() == 0 {
        assert(first + second =~= first);
        assert(write_at(stored, next, second) =~= stored);
    } else {
        let k = second.len() - 1;
        let earlier = second.drop_last();
        lemma_store_in_sequence(mem, at, first, earlier);
        lemma_store_one_more(stored, next, second, k);
        lemma_store_one_more(mem, at, first + second, first.len() + k);
        assert(second.take(k) =~= earlier);
        assert(second.take(k + 1) =~= second);
        assert((first + second).take(first.len() + k) =~= first + earlier);
        assert((first + second).take(first.len() + k + 1) =~= first + second);
        assert(address(next, k) == address(at, first.len() + k));
    }
}

} // verus!
