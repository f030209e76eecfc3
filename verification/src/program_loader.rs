//! Small 6502 programs, written as hex dumps, that exercise the CPU core.
//!
//! `write_rom` decodes a dump of space-separated two-digit hex bytes into the
//! front of a 32 KiB program image; each loader returns how many instructions
//! its program holds.
use vstd::prelude::*;

verus! {

/// The value of one hex digit, upper or lower case.
pub open spec fn spec_hex_val(c: char) -> Option<u8> {
    match c {
        '0' => Some(0u8),
        '1' => Some(1u8),
        '2' => Some(2u8),
        '3' => Some(3u8),
        '4' => Some(4u8),
        '5' => Some(5u8),
        '6' => Some(6u8),
        '7' => Some(7u8),
        '8' => Some(8u8),
        '9' => Some(9u8),
        'a' => Some(10u8),
        'b' => Some(11u8),
        'c' => Some(12u8),
        'd' => Some(13u8),
        'e' => Some(14u8),
        'f' => Some(15u8),
        'A' => Some(10u8),
        'B' => Some(11u8),
        'C' => Some(12u8),
        'D' => Some(13u8),
        'E' => Some(14u8),
        'F' => Some(15u8),
        _ => None,
    }
}

/// Position `i` of a well-formed dump holds a separating space after each
/// two-digit byte, and hex digits everywhere else.
pub open spec fn spec_dump_char_ok(s: Seq<char>, i: int) -> bool {
    if i % 3 == 2 {
        s[i] == ' '
    } else {
        spec_hex_val(s[i]) is Some
    }
}

/// A dump of one or more two-digit hex bytes separated by single spaces.
pub open spec fn spec_is_hex_dump(s: Seq<char>) -> bool {
    &&& s.len() % 3 == 2
    &&& forall|i: int| 0 <= i < s.len() ==> #[trigger] spec_dump_char_ok(s, i)
}

/// How many bytes a dump encodes.
pub open spec fn spec_dump_len(s: Seq<char>) -> int {
    (s.len() as int + 1) / 3
}

/// Byte `k` of a dump: its two hex digits, high digit first.
pub open spec fn spec_dump_byte(s: Seq<char>, k: int) -> u8 {
    (spec_hex_val(s[3 * k])->Some_0 * 16 + spec_hex_val(s[3 * k + 1])->Some_0) as u8
}

/// The memory after a dump is written over its front: the decoded bytes where
/// the dump reaches, the old bytes elsewhere.  A malformed dump, or one
/// longer than the memory, writes nothing.
pub open spec fn spec_write_rom(mem: Seq<u8>, s: Seq<char>) -> Seq<u8> {
    if spec_is_hex_dump(s) && spec_dump_len(s) <= mem.len() {
        Seq::new(
            mem.len(),
            |k: int|
                if k < spec_dump_len(s) {
                    spec_dump_byte(s, k)
                } else {
                    mem[k]
                },
        )
    } else {
        mem
    }
}

/// The value of a hex digit.
fn hex_value(c: char) -> (r: u8)
    requires
        spec_hex_val(c) is Some,
    ensures
        Some(r) == spec_hex_val(c),
        r < 16,
{
    match c {
        '0' => 0,
        '1' => 1,
        '2' => 2,
        '3' => 3,
        '4' => 4,
        '5' => 5,
        '6' => 6,
        '7' => 7,
        '8' => 8,
        '9' => 9,
        'a' => 10,
        'b' => 11,
        'c' => 12,
        'd' => 13,
        'e' => 14,
        'f' => 15,
        'A' => 10,
        'B' => 11,
        'C' => 12,
        'D' => 13,
        'E' => 14,
        'F' => 15,
        _ => {
            proof {
                assert(false);
            }
            0
        },
    }
}

/// Whether `c` is a hex digit.
fn is_hex_digit(c: char) -> (r: bool)
    ensures
        r == (spec_hex_val(c) is Some),
{
    match c {
        '0' | '1' | '2' | '3' | '4' | '5' | '6' | '7' | '8' | '9' => true,
        'a' | 'b' | 'c' | 'd' | 'e' | 'f' => true,
        'A' | 'B' | 'C' | 'D' | 'E' | 'F' => true,
        _ => false,
    }
}

/// Writes the bytes of a hex dump over the front of `rom_memory`.  A dump
/// that is malformed or does not fit leaves the memory untouched.
pub fn write_rom(rom_memory: &mut Vec<u8>, dump: &str)
    ensures
        final(rom_memory)@ == spec_write_rom(old(rom_memory)@, dump@),
{
    let len = dump.unicode_len();
    if len % 3 != 2 {
        return ;
    }
    let n = (len + 1) / 3;
    if n > rom_memory.len() {
        return ;
    }
    let mut i: usize = 0;
    while i < len
        invariant
            i <= len,
            len == dump@.len(),
            forall|j: int| 0 <= j < i ==> #[trigger] spec_dump_char_ok(dump@, j),
        decreases len - i,
    {
        let c = dump.get_char(i);
        let ok = if i % 3 == 2 {
            c == ' '
        } else {
            is_hex_digit(c)
        };
        if !ok {
            proof {
                assert(!spec_dump_char_ok(dump@, i as int));
                assert(!spec_is_hex_dump(dump@));
            }
            return ;
        }
        i = i + 1;
    }
    let mut k: usize = 0;
    while k < n
        invariant
            k <= n,
            n == spec_dump_len(dump@),
            n <= rom_memory@.len(),
            len == dump@.len(),
            len % 3 == 2,
            spec_is_hex_dump(dump@),
            rom_memory@.len() == old(rom_memory)@.len(),
            forall|j: int| 0 <= j < k ==> rom_memory@[j] == spec_dump_byte(dump@, j),
            forall|j: int| k <= j < rom_memory@.len() ==> rom_memory@[j] == old(rom_memory)@[j],
        decreases n - k,
    {
        proof {
            let ki = k as int;
            assert((3 * ki) % 3 == 0 && (3 * ki + 1) % 3 == 1) by (nonlinear_arith)
                requires
                    ki >= 0,
            ;
            assert(3 * ki + 1 < dump@.len());
            assert(spec_dump_char_ok(dump@, 3 * ki));
            assert(spec_dump_char_ok(dump@, 3 * ki + 1));
        }
        let hi = hex_value(dump.get_char(3 * k));
        let lo = hex_value(dump.get_char(3 * k + 1));
        rom_memory[k] = hi * 16 + lo;
        k = k + 1;
    }
    proof {
        assert(rom_memory@ =~= spec_write_rom(old(rom_memory)@, dump@));
    }
}

/// Loads this program, returning its instruction count:
///
///     LDA #$8C
///     PHA
///     LDA #$AB
///     PHA
///     PLA
///     PLA
///     PLA ; This will overflow the stack pointer
///     NOP
pub fn load_program_stack(rom: &mut Vec<u8>) -> (n: u8)
    ensures
        final(rom)@ == spec_write_rom(old(rom)@, "A9 8C 48 A9 AB 48 68 68 68 EA"@),
        n == 8,
{
    write_rom(rom, "A9 8C 48 A9 AB 48 68 68 68 EA");
    8
}

/// Loads this program, returning its instruction count:
///
///     LDA #$FF
///     LDA #$00
///     NOP
pub fn load_program_lda(rom: &mut Vec<u8>) -> (n: u8)
    ensures
        final(rom)@ == spec_write_rom(old(rom)@, "A9 FF A9 00 EA"@),
        n == 3,
{
    write_rom(rom, "A9 FF A9 00 EA");
    3
}

/// Loads this program, returning its instruction count:
///
///     CLD
///     LDA #$09
///     CLC
///     ADC #$02     ; A will be 0x0B, as expected (0x9 + 0x2 = 0xB)
///
///     SED
///     LDA #$09
///     CLC
///     ADC #$02     ; A will be 0x11, because decimal bitflag is enabled (i.e. represent the sum in 'decimal' (11) form, not hex (0xB) form)
///     ; (NES hardware itself ignores decimal mode)
///
///     CLD
///     LDA #$FF
///     ADC #$81    ; Sets CARRY flag
///
///     CLC
///     LDA #$80
///     ADC #$FF     ; Sets OVERRFLOW flag (and carry)
///
///     CLV
///     CLC      ; 127 + 1 = 128, returns V = 1
///     LDA #$7F
///     ADC #$01
///
///     NOP
pub fn load_program_adc(rom: &mut Vec<u8>) -> (n: u8)
    ensures
        final(rom)@ == spec_write_rom(old(rom)@, "d8 a9 09 18 69 02 f8 a9 09 18 69 02 d8 a9 ff 69 81 18 a9 80 69 ff b8 18 a9 7f 69 01 ea"@),
        n == 19,
{
    write_rom(rom, "d8 a9 09 18 69 02 f8 a9 09 18 69 02 d8 a9 ff 69 81 18 a9 80 69 ff b8 18 a9 7f 69 01 ea");
    19
}

/// Loads this program, returning its instruction count:
///
///     SEI
///     CLD
///     LDX #$AB
///     STX $2000
///     STX $2001
///     NOP
pub fn load_program_absolute_store(rom: &mut Vec<u8>) -> (n: u8)
    ensures
        final(rom)@ == spec_write_rom(old(rom)@, "78 d8 a2 ab 8e 00 20 8e 01 20 ea"@),
        n == 6,
{
    write_rom(rom, "78 d8 a2 ab 8e 00 20 8e 01 20 ea");
    6
}

/// Loads this program, returning its instruction count:
///
///     LDX #$FE
///     INX
///     INX
///     NOP
pub fn load_program_index_increment(rom: &mut Vec<u8>) -> (n: u8)
    ensures
        final(rom)@ == spec_write_rom(old(rom)@, "a2 fe e8 e8 ea"@),
        n == 4,
{
    write_rom(rom, "a2 fe e8 e8 ea");
    4
}

/// Loads this program, returning its instruction count:
///
///     LDX #$FE
///     STX $0A
///     INC $0A
///     INC $0A
///     NOP
pub fn load_program_zeropage_store_load_and_memory_increment(rom: &mut Vec<u8>) -> (n: u8)
    ensures
        final(rom)@ == spec_write_rom(old(rom)@, "a2 fe 86 0a e6 0a e6 0a ea"@),
        n == 5,
{
    write_rom(rom, "a2 fe 86 0a e6 0a e6 0a ea");
    5
}

/// Loads this program, returning its instruction count:
///
///     LDX #$FE     ; Load index X
///     STX $0A     ; Store index in zero page (non-indexed)
///     LDA $0A     ; Load from zero page (non-indexed)
///
///     LDX #$FF     ; We want to access zeropage indexed (0x05 + 0x05 = 0x0A)
///     LDA #$00     ; Reset A so we can examine if we got to the same address
///     LDA $0B,X     ; We load at zeropage, address: (0xFF + 0x0B = 0x0A, zeropage is overflowing 1 byte). So A should be 0xFE.
///
///     LDX #$0B     ; We want to access 0x0A again, in next instruction we access: 0x0B + 0xFF = 0x0A memory.
///     ADC $FF,X     ; We add A (0xFE) with memory (at 0x0A), which is (0xFE + 0xFE = 0x1FC, but carry is 1, so its 0xFC)
///
///     NOP
pub fn load_program_zeropage_x(rom: &mut Vec<u8>) -> (n: u8)
    ensures
        final(rom)@ == spec_write_rom(old(rom)@, "a2 fe 86 0a a5 0a a2 ff a9 00 b5 0b a2 0b 75 ff ea"@),
        n == 9,
{
    write_rom(rom, "a2 fe 86 0a a5 0a a2 ff a9 00 b5 0b a2 0b 75 ff ea");
    9
}

/// Loads this program, returning its instruction count:
///
///     LDA #$0A         ; A=0x0A
///     STA $2000        ; $0x2000 = 0x0A
///     LDX #$0D        ; X=0x0D
///     LDY $1FF3,X     ; Y = $(0x1FF3 + 0x0D = 0x2000) = 0x0A
///
///     LDA #$00         ; A=0x00
///     LDY #$FF         ; Y=0xFF
///     LDA $1F01,Y     ; A = $(0x1F01 + 0xFF = 0x2000) = 0x0A
///
///     NOP
pub fn load_program_absolute_indexed(rom: &mut Vec<u8>) -> (n: u8)
    ensures
        final(rom)@ == spec_write_rom(old(rom)@, "a9 0a 8d 00 20 a2 0d bc f3 1f a9 00 a0 ff b9 01 1f ea"@),
        n == 8,
{
    write_rom(rom, "a9 0a 8d 00 20 a2 0d bc f3 1f a9 00 a0 ff b9 01 1f ea");
    8
}

/// Loads this program, returning its instruction count:
///
///     LDX #$F8     ; We load instruction 0xF8 (SED) to X
///     STX $0001     ; Store instruction in $0001
///
///     JMP 0001     ; Jump to $0001
///     -             ; Execute the instruction in $0001 , DECIMAL bitflag is set. Note: We don't add assembly instruction here, because its out of reach. The PC changed.
pub fn load_program_jmp_absolute(rom: &mut Vec<u8>) -> (n: u8)
    ensures
        final(rom)@ == spec_write_rom(old(rom)@, "a2 f8 8e 01 00 4c 01 00"@),
        n == 4,
{
    write_rom(rom, "a2 f8 8e 01 00 4c 01 00");
    4
}

/// Loads this program, returning its instruction count:
///
///     LDA #$05
///     STA $00AB
///
///     LDA #$FF
///     STA $00AC
///
///     JMP ($00AB)
pub fn load_program_jmp_indirect(rom: &mut Vec<u8>) -> (n: u8)
    ensures
        final(rom)@ == spec_write_rom(old(rom)@, "a9 05 8d ab 00 a9 ff 8d ac 00 6c ab 00"@),
        n == 5,
{
    write_rom(rom, "a9 05 8d ab 00 a9 ff 8d ac 00 6c ab 00");
    5
}

/// Loads this program, returning its instruction count:
///
///     LDA #$05
///
///     CMP #$01     ; Carry is set to 1
///     CMP #$05     ; Zero is set to 1
///     CMP #$06     ; Negative is set to 1, zero and carry are set to 0
///
///     LDA #$AA     ; N=1, Z=C=0
///     CMP #$22     ; C=N=1, Z=0
///
///     LDA #$00     ; N=0, Z=C=1
///     CMP #$FF     ; N=Z=C=0
///
///     NOP
pub fn load_program_cmp(rom: &mut Vec<u8>) -> (n: u8)
    ensures
        final(rom)@ == spec_write_rom(old(rom)@, "a9 05 c9 01 c9 05 c9 06 a9 aa c9 22 a9 00 c9 ff ea"@),
        n == 9,
{
    write_rom(rom, "a9 05 c9 01 c9 05 c9 06 a9 aa c9 22 a9 00 c9 ff ea");
    9
}

/// Loads this program, returning its instruction count:
///
///     LDA #$05
///     STA $0A
///
///     LDX #$04     ; N=C=Z=0
///     CPX $0A     ; N=1
///
///     LDX #$FF
///     CPX $0A     ; N=C=1 Z=0
///
///     LDX #$05
///     CPX $0A     ; Z=C=1 N=0
///
///     NOP
pub fn load_program_cpx(rom: &mut Vec<u8>) -> (n: u8)
    ensures
        final(rom)@ == spec_write_rom(old(rom)@, "a9 05 85 0a a2 04 e4 0a a2 ff e4 0a a2 05 e4 0a ea"@),
        n == 9,
{
    write_rom(rom, "a9 05 85 0a a2 04 e4 0a a2 ff e4 0a a2 05 e4 0a ea");
    9
}

/// Loads this program, returning its instruction count:
///
///     JSR $0A0B      ; We push to stack: PC + 2
///     -             ; Because we jump, we don't want to execute NOP. Because the PC changed.
pub fn load_program_jsr(rom: &mut Vec<u8>) -> (n: u8)
    ensures
        final(rom)@ == spec_write_rom(old(rom)@, "20 0b 0a"@),
        n == 1,
{
    write_rom(rom, "20 0b 0a");
    1
}

/// Loads this program, returning its instruction count:
///
///     SEC
///     LDX #$AB         ; X = AB
///     LDA #$FF        ; A = FF
///     STA $2000,x     ; $2000 + $AB = $20AB = 0xFF  ( carry is not used in the calculation )
///     NOP
pub fn load_program_absolute_indexed_with_carry(rom: &mut Vec<u8>) -> (n: u8)
    ensures
        final(rom)@ == spec_write_rom(old(rom)@, "38 a2 ab a9 ff 9d 00 20 ea"@),
        n == 5,
{
    write_rom(rom, "38 a2 ab a9 ff 9d 00 20 ea");
    5
}

/// Loads this program, returning its instruction count:
///
///     LDA #$AA    ; A = AA
///     TAX          ; X = AA
///     TAY         ; Y = AA
///     TSX            ; X != AA, SP lower bytes end with 0xFF, since the stack is empty
///     LDA #$00     ; A = 00
///     TXA            ; A != 00
///     LDX #$BB    ; X = BB
///     TXS            ; S = BB
///     TYA            ; A = AA
///     NOP
pub fn load_program_transfers(rom: &mut Vec<u8>) -> (n: u8)
    ensures
        final(rom)@ == spec_write_rom(old(rom)@, "a9 aa aa a8 ba a9 00 8a a2 bb 9a 98 ea"@),
        n == 9,
{
    write_rom(rom, "a9 aa aa a8 ba a9 00 8a a2 bb 9a 98 ea");
    9
}

/// Loads this program, returning its instruction count:
///
///     LDA #$FF
///     AND #$FF ; A = 0xFF
///     LDA #$AB
///     AND #$C3 ; A = 0x83
///     AND #$00 ; A = 0
///     NOP
pub fn load_program_and(rom: &mut Vec<u8>) -> (n: u8)
    ensures
        final(rom)@ == spec_write_rom(old(rom)@, "a9 ff 29 ff a9 ab 29 c3 29 00 ea"@),
        n == 6,
{
    write_rom(rom, "a9 ff 29 ff a9 ab 29 c3 29 00 ea");
    6
}

/// Loads this program, returning its instruction count:
///
///     LDA #$01
///     ASL A
///     ASL A
///
///     LDA #$FF
///     ASL A
///     ASL A
///     ASL A
///
///     CLC
///     LDA #$7F
///     ASL
///     ASL
///
///     LDX #$80
///     STX $2000
///     ASL $2000
///
///     NOP
pub fn load_program_asl(rom: &mut Vec<u8>) -> (n: u8)
    ensures
        final(rom)@ == spec_write_rom(old(rom)@, "a9 01 0a 0a a9 ff 0a 0a 0a 18 a9 7f 0a 0a a2 80 8e 00 20 0e 00 20 ea"@),
        n == 15,
{
    write_rom(rom, "a9 01 0a 0a a9 ff 0a 0a 0a 18 a9 7f 0a 0a a2 80 8e 00 20 0e 00 20 ea");
    15
}

/// Loads this program, returning its instruction count:
///
///     LDX #$7f
///     STX $44
///     BIT $44
///
///     LDX #$88
///     STX $45
///     BIT $45
///
///     LDA #$FF
///     BIT $44
///     BIT $45
///
///     NOP
pub fn load_program_bit(rom: &mut Vec<u8>) -> (n: u8)
    ensures
        final(rom)@ == spec_write_rom(old(rom)@, "a2 7f 86 44 24 44 a2 88 86 45 24 45 a9 ff 24 44 24 45 ea"@),
        n == 10,
{
    write_rom(rom, "a2 7f 86 44 24 44 a2 88 86 45 24 45 a9 ff 24 44 24 45 ea");
    10
}

/// Loads this program, returning its instruction count:
///
///     clc
///     nop
///     bcc test
///     nop
///
///     test:
///     sec
///     bcc success
///     nop
///
///     success:
///     nop
pub fn load_program_bcc(rom: &mut Vec<u8>) -> (n: u8)
    ensures
        final(rom)@ == spec_write_rom(old(rom)@, "18 ea 90 01 ea 38 90 01 ea ea"@),
        n == 8,
{
    write_rom(rom, "18 ea 90 01 ea 38 90 01 ea ea");
    8
}

} // verus!
