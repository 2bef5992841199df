//! The register logic of the polled UART driver (a PL011-style UART).

use vstd::prelude::*;

verus! {

/// Offset of the flag register from the UART's base address.
pub const FR: u32 = 0x18;

/// The flag register's "receive FIFO empty" bit.
pub const UARTFR_RXFE: u32 = 0x0000_0010;

/// What `poll_in` returns when no character has been received.
pub const POLL_IN_NO_DATA: i32 = -1;

/// What `poll_in` returns when it has stored a received character.
pub const POLL_IN_OK: i32 = 0;

/// Whether the flag register value `flags` has the "receive FIFO empty" bit
/// (bit 4) set.
pub open spec fn rx_fifo_empty(flags: u32) -> bool {
    (flags / 16) % 2 == 1
}

/// The address of the flag register of the UART at `base`.
pub fn flag_register_address(base: u32) -> (r: u32)
    requires
        base + FR <= u32::MAX,
    ensures
        r == base + FR,
{
    base + FR
}

/// Whether the UART whose flag register reads `flags` holds no received
/// character; the data register is read only when this is `false`.
pub fn rx_empty(flags: u32) -> (r: bool)
    ensures
        r == rx_fifo_empty(flags),
        r == ((flags & UARTFR_RXFE) != 0),
{
    let r = (flags & UARTFR_RXFE) != 0;
    assert(((flags & 0x10u32) != 0u32) == ((flags / 16) % 2 == 1)) by (bit_vector);
    r
}

/// The outcome of polling for input: the status `poll_in` returns and, when
/// a character was received, that character, from the data register's value
/// `data`.
pub fn poll_in_result(flags: u32, data: u32) -> (r: (i32, Option<u8>))
    ensures
        rx_fifo_empty(flags) ==> r == (POLL_IN_NO_DATA, None::<u8>),
        !rx_fifo_empty(flags) ==> r == (POLL_IN_OK, Some((data % 256) as u8)),
{
    if rx_empty(flags) {
        (POLL_IN_NO_DATA, None)
    } else {
        (POLL_IN_OK, Some((data % 256) as u8))
    }
}

/// The receive FIFO counts as empty exactly when the RXFE bit (0x10) of the
/// flag register is set, whatever the other flag bits are.
pub proof fn law_rx_fifo_empty_is_the_rxfe_bit(flags: u32)
    ensures
        rx_fifo_empty(flags) <==> (flags & 0x10u32) != 0u32,
        rx_fifo_empty(flags) == rx_fifo_empty(flags & 0x10u32),
        rx_fifo_empty(flags) == rx_fifo_empty(flags | 0xffff_ffefu32) ,
{
    assert(((flags & 0x10u32) != 0u32) == ((flags / 16) % 2 == 1)) by (bit_vector);
    assert((((flags & 0x10u32) & 0x10u32) != 0u32) == (((flags & 0x10u32) / 16) % 2 == 1)) by (bit_vector);
    assert(((flags & 0x10u32) != 0u32) == (((flags & 0x10u32) & 0x10u32) != 0u32)) by (bit_vector);
    assert((((flags | 0xffff_ffefu32) & 0x10u32) != 0u32) == (((flags | 0xffff_ffefu32) / 16) % 2 == 1)) by (bit_vector);
    assert(((flags & 0x10u32) != 0u32) == (((flags | 0xffff_ffefu32) & 0x10u32) != 0u32)) by (bit_vector);
}

/// Polling returns no character exactly when RXFE is set; otherwise it
/// returns status 0 and the low byte of the data register, so two flag
/// values that agree on RXFE give the same outcome.
pub proof fn law_poll_in_depends_on_rxfe_only(flags: u32, data: u32, r: (i32, Option<u8>))
    requires
        rx_fifo_empty(flags) ==> r == (POLL_IN_NO_DATA, None::<u8>),
        !rx_fifo_empty(flags) ==> r == (POLL_IN_OK, Some((data % 256) as u8)),
    ensures
        (flags & 0x10u32) != 0u32 ==> r == (-1i32, None::<u8>),
        (flags & 0x10u32) == 0u32 ==> r == (0i32, Some((data % 256) as u8)),
{
    law_rx_fifo_empty_is_the_rxfe_bit(flags);
}

} // verus!
