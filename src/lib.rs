//! Channel engine of a full-speed USB host controller: packet-memory
//! allocation, buffer descriptor encoding, the per-channel register state
//! machine, control transfer sequencing and the interrupt-to-waiter bridge.
//!
//! The peripheral is held as plain register values (`Peripheral`), with the
//! hardware's write semantics (status and toggle bits flip where a 1 is
//! written, event flags clear where a 0 is written) stated as spec
//! functions. Transfers are state machines polled each time their waiter
//! resumes, so the timeout, disconnect and status checks of every step are
//! proved, and can be driven by a simulated device.

mod btable;
mod host;
mod hw;
mod mem;
mod regs;
mod waker;

pub use btable::{
    align_len_up, calc_receive_len_bits, decode_receive_capacity, read_out_len, write_in,
    write_receive_buffer_descriptor, write_transmit_buffer_descriptor, BTABLE_BYTES, EP_COUNT,
    USBRAM_ALIGN, USBRAM_SIZE, USBRAM_WORDS,
};
pub use host::{
    convert_type, Channel, ChannelError, ControlStage, ControlTransfer, DeviceEvent, Direction,
    EndpointInfo, EndpointType, HostError, InTransfer, OutTransfer, Speed, TransferStatus,
    UsbHost, TIMEOUT_MS, USB_MAX_PIPES,
};
pub use hw::{Peripheral, USBHostInterruptHandler};
pub use mem::{EndpointBuffer, EndpointMemory};
pub use regs::{
    epr_invariant, rx_stat_write, stat_rx, stat_tx, tx_stat_write, Stat, CNTR_FRES, CNTR_INIT,
    CNTR_RUN, EPR_SETUP, ISTR_CTR, ISTR_DCON_STAT, ISTR_EP_ID, ISTR_ERR, ISTR_LS_DCON,
    ISTR_RESET,
};
pub use waker::WakeTarget;
