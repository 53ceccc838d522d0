use vstd::prelude::*;

verus! {

/// What an interrupt handler tells the kernel (`irqreturn_t`).
#[derive(Debug, Clone, Copy, PartialEq, Eq, Structural)]
pub enum IrqReturn {
    /// `IRQ_NONE`: this interrupt was not from our device; another handler
    /// should try.
    Unhandled,
    /// `IRQ_HANDLED`: we handled the interrupt.
    Handled,
    /// `IRQ_WAKE_THREAD`: we handled the interrupt and want the threaded
    /// handler to run next.
    WakeThread,
}

/// A 32-bit event counter after one more event; it wraps at the top, as an
/// atomic `fetch_add` does.
pub open spec fn count_up(v: u32) -> u32 {
    if v == u32::MAX { 0 } else { (v + 1) as u32 }
}

/// The counter after an event that happened (`hit`) or did not.
pub open spec fn count_if(v: u32, hit: bool) -> u32 {
    if hit { count_up(v) } else { v }
}

/// One more event on a 32-bit counter is the successor modulo 2^32; an event
/// that did not happen leaves the counter alone.
pub proof fn lemma_count_up_is_successor_mod_word(v: u32, hit: bool)
    ensures
        count_up(v) == (v + 1) % 0x1_0000_0000,
        count_if(v, hit) == if hit { (v + 1) % 0x1_0000_0000 } else { v as int },
{
}

fn bump(v: u32) -> (r: u32)
    ensures
        r == count_up(v),
{
    v.wrapping_add(1)
}

// ---------------------------------------------------------------------------
// 1. Simple top-half handler
// ---------------------------------------------------------------------------

/// Per-device state shared between the interrupt handler and the driver.
pub struct SimpleDeviceData {
    /// Incremented each time an interrupt fires.
    pub irq_count: u32,
    /// Set when the device signals "data ready".
    pub data_ready: bool,
}

impl SimpleDeviceData {
    /// Create zeroed device data.
    pub fn new() -> (d: Self)
        ensures
            d.irq_count == 0,
            !d.data_ready,
    {
        SimpleDeviceData { irq_count: 0, data_ready: false }
    }
}

impl Default for SimpleDeviceData {
    fn default() -> (d: Self)
        ensures
            d.irq_count == 0,
            !d.data_ready,
    {
        Self::new()
    }
}

/// The interrupt-pending bit of the device's status register.
pub open spec fn irq_pending(status: u32) -> bool {
    status & 0x0001 != 0
}

/// The interrupt is pending exactly when bit 0 of the status register is set;
/// no other bit has a say.
pub proof fn lemma_pending_is_bit_zero(status: u32)
    ensures
        irq_pending(status) <==> status & 1 != 0,
{
}

impl SimpleDeviceData {
    /// Account for an interrupt given the device's status register: when the
    /// interrupt-pending bit is clear the interrupt is not ours and nothing
    /// changes; otherwise it is counted and the data flagged as ready.
    pub fn handle_status(&mut self, status: u32) -> (r: IrqReturn)
        ensures
            !irq_pending(status) ==> r == IrqReturn::Unhandled && *final(self) == *old(self),
            irq_pending(status) ==> r == IrqReturn::Handled
                && final(self).irq_count == count_up(old(self).irq_count)
                && final(self).data_ready,
            (r == IrqReturn::Handled) <==> (status & 1 != 0),
            status & 1 == 0 ==> r == IrqReturn::Unhandled && *final(self) == *old(self),
            status & 1 != 0 ==> final(self).irq_count == (old(self).irq_count + 1) % 0x1_0000_0000
                && final(self).data_ready,
    {
        proof {
            lemma_pending_is_bit_zero(status);
            lemma_count_up_is_successor_mod_word(self.irq_count, true);
        }
        if status & 0x0001 == 0 {
            return IrqReturn::Unhandled;
        }
        self.irq_count = bump(self.irq_count);
        self.data_ready = true;
        IrqReturn::Handled
    }
}

/// A minimal interrupt handler for `dev`.
///
/// The device's status register reports a pending interrupt, so the handler
/// counts it, flags the data as ready and reports it handled.
pub fn simple_irq_handler(_irq: u32, dev: &mut SimpleDeviceData) -> (r: IrqReturn)
    ensures
        r == IrqReturn::Handled,
        final(dev).irq_count == count_up(old(dev).irq_count),
        final(dev).data_ready,
{
    let status: u32 = 0x0001;
    assert(irq_pending(status)) by (bit_vector)
        requires
            status == 0x0001u32,
    ;
    dev.handle_status(status)
}

// ---------------------------------------------------------------------------
// 2. Top-half / bottom-half split with a workqueue
// ---------------------------------------------------------------------------

/// A device whose interrupt handler defers its work to a workqueue.
pub struct WorkqueueExample {
    /// Interrupts seen so far.
    pub irq_count: u32,
    /// Whether a bottom half is scheduled.
    pub work_queued: bool,
}

/// The device after its top half ran: one more interrupt, work scheduled.
pub open spec fn after_top_half(w: WorkqueueExample) -> WorkqueueExample {
    WorkqueueExample { irq_count: count_up(w.irq_count), work_queued: true }
}

/// The device after its bottom half ran: nothing is scheduled any more.
pub open spec fn after_bottom_half(w: WorkqueueExample) -> WorkqueueExample {
    WorkqueueExample { irq_count: w.irq_count, work_queued: false }
}

/// What the bottom half processes: the interrupt count, when work was
/// scheduled.
pub open spec fn bottom_half_report(w: WorkqueueExample) -> Option<u32> {
    if w.work_queued { Some(w.irq_count) } else { None }
}

impl WorkqueueExample {
    /// A device with no interrupts seen and no work scheduled.
    pub fn new() -> (w: Self)
        ensures
            w.irq_count == 0,
            !w.work_queued,
    {
        WorkqueueExample { irq_count: 0, work_queued: false }
    }

    /// Top half, in hard interrupt context: record the event and schedule the
    /// bottom half.
    pub fn top_half(&mut self) -> (r: IrqReturn)
        ensures
            r == IrqReturn::Handled,
            *final(self) == after_top_half(*old(self)),
            final(self).irq_count == (old(self).irq_count + 1) % 0x1_0000_0000,
            final(self).work_queued,
    {
        proof {
            lemma_count_up_is_successor_mod_word(self.irq_count, true);
        }
        self.irq_count = bump(self.irq_count);
        self.work_queued = true;
        IrqReturn::Handled
    }

    /// Bottom half, in process context: take the scheduled work, if any.
    ///
    /// Returns the number of interrupts to process, or `None` when no work
    /// was scheduled.
    pub fn bottom_half(&mut self) -> (r: Option<u32>)
        ensures
            r == bottom_half_report(*old(self)),
            *final(self) == after_bottom_half(*old(self)),
            old(self).work_queued ==> r == Some(old(self).irq_count),
            !old(self).work_queued ==> r == None::<u32>,
            final(self).irq_count == old(self).irq_count,
            !final(self).work_queued,
    {
        let queued = self.work_queued;
        self.work_queued = false;
        if !queued {
            return None;
        }
        Some(self.irq_count)
    }
}

impl Default for WorkqueueExample {
    fn default() -> (w: Self)
        ensures
            w.irq_count == 0,
            !w.work_queued,
    {
        Self::new()
    }
}

/// Work scheduled by a top half is processed exactly once: the next bottom
/// half reports the interrupt count, and a second one finds nothing to do.
pub proof fn lemma_deferred_work_runs_once(w: WorkqueueExample)
    ensures
        bottom_half_report(after_top_half(w)) == Some(count_up(w.irq_count)),
        bottom_half_report(after_bottom_half(after_top_half(w))) == None::<u32>,
        after_bottom_half(after_bottom_half(w)) == after_bottom_half(w),
{
}

/// What each half does, for every state: the top half counts one interrupt
/// (modulo 2^32) and schedules work; the bottom half reports the count exactly
/// when work was scheduled, keeps the count, and leaves nothing scheduled.
pub proof fn lemma_halves_effects(w: WorkqueueExample)
    ensures
        after_top_half(w).irq_count == (w.irq_count + 1) % 0x1_0000_0000,
        after_top_half(w).work_queued,
        bottom_half_report(w) is Some <==> w.work_queued,
        bottom_half_report(w) matches Some(n) ==> n == w.irq_count,
        after_bottom_half(w).irq_count == w.irq_count,
        !after_bottom_half(w).work_queued,
{
    lemma_count_up_is_successor_mod_word(w.irq_count, true);
}

// ---------------------------------------------------------------------------
// 3. Threaded interrupt handler
// ---------------------------------------------------------------------------

/// A device with a primary handler in hard interrupt context and a thread
/// handler in process context.
pub struct ThreadedIrqDevice {
    /// Whether the primary handler left work for the thread handler.
    pub pending: bool,
    /// Interrupts fully processed by the thread handler.
    pub packets_processed: u32,
}

/// The device after its primary handler ran: work is pending.
pub open spec fn after_primary(d: ThreadedIrqDevice) -> ThreadedIrqDevice {
    ThreadedIrqDevice { pending: true, packets_processed: d.packets_processed }
}

/// The device after its thread handler ran: pending work, if any, is done.
pub open spec fn after_thread(d: ThreadedIrqDevice) -> ThreadedIrqDevice {
    ThreadedIrqDevice {
        pending: false,
        packets_processed: count_if(d.packets_processed, d.pending),
    }
}

/// What the thread handler reports: handled when work was pending.
pub open spec fn thread_report(d: ThreadedIrqDevice) -> IrqReturn {
    if d.pending { IrqReturn::Handled } else { IrqReturn::Unhandled }
}

impl ThreadedIrqDevice {
    /// A device with no pending work.
    pub fn new() -> (d: Self)
        ensures
            !d.pending,
            d.packets_processed == 0,
    {
        ThreadedIrqDevice { pending: false, packets_processed: 0 }
    }

    /// Primary handler: the interrupt is ours, so mark work pending and ask
    /// for the thread handler.
    pub fn primary_handler(&mut self) -> (r: IrqReturn)
        ensures
            r == IrqReturn::WakeThread,
            *final(self) == after_primary(*old(self)),
            final(self).pending,
            final(self).packets_processed == old(self).packets_processed,
    {
        let our_interrupt = true;
        if !our_interrupt {
            return IrqReturn::Unhandled;
        }
        self.pending = true;
        IrqReturn::WakeThread
    }

    /// Thread handler: process the pending work, if any.
    pub fn thread_handler(&mut self) -> (r: IrqReturn)
        ensures
            r == thread_report(*old(self)),
            *final(self) == after_thread(*old(self)),
            !final(self).pending,
            old(self).pending ==> r == IrqReturn::Handled
                && final(self).packets_processed == (old(self).packets_processed + 1) % 0x1_0000_0000,
            !old(self).pending ==> r == IrqReturn::Unhandled
                && final(self).packets_processed == old(self).packets_processed,
    {
        proof {
            lemma_count_up_is_successor_mod_word(self.packets_processed, true);
        }
        let was_pending = self.pending;
        self.pending = false;
        if !was_pending {
            return IrqReturn::Unhandled;
        }
        self.packets_processed = bump(self.packets_processed);
        IrqReturn::Handled
    }
}

impl Default for ThreadedIrqDevice {
    fn default() -> (d: Self)
        ensures
            !d.pending,
            d.packets_processed == 0,
    {
        Self::new()
    }
}

/// A primary handler followed by the thread handler processes exactly one
/// interrupt; a thread handler with nothing pending changes nothing and says
/// the interrupt was not ours.
pub proof fn lemma_threaded_irq_round(d: ThreadedIrqDevice)
    ensures
        thread_report(after_primary(d)) == IrqReturn::Handled,
        after_thread(after_primary(d)).packets_processed == count_up(d.packets_processed),
        !after_thread(after_primary(d)).pending,
        !d.pending ==> thread_report(d) == IrqReturn::Unhandled && after_thread(d) == d,
{
}

/// Only the thread handler counts processed packets: the primary handler
/// leaves the count alone and marks work pending, the thread handler adds one
/// exactly when work was pending, and primaries that come before one thread
/// run are processed together, once.
pub proof fn lemma_only_thread_handler_counts(d: ThreadedIrqDevice)
    ensures
        after_primary(d).packets_processed == d.packets_processed,
        after_primary(d).pending,
        after_thread(d).packets_processed == if d.pending {
            (d.packets_processed + 1) % 0x1_0000_0000
        } else {
            d.packets_processed as int
        },
        !after_thread(d).pending,
        after_thread(after_primary(after_primary(d))).packets_processed
            == (d.packets_processed + 1) % 0x1_0000_0000,
{
    lemma_count_up_is_successor_mod_word(d.packets_processed, true);
    lemma_count_up_is_successor_mod_word(d.packets_processed, d.pending);
}

// ---------------------------------------------------------------------------
// 4. Per-device statistics
// ---------------------------------------------------------------------------

/// Receive, transmit and error counters updated from interrupt context.
pub struct PerDeviceIrqData {
    rx_packets: u32,
    tx_packets: u32,
    error_count: u32,
}

/// The statistics after an interrupt whose cause register reads `cause`:
/// bit 0 is a received packet, bit 1 a transmitted one, bit 2 an error.
pub open spec fn stats_after_cause(s: (u32, u32, u32), cause: u32) -> (u32, u32, u32) {
    (
        count_if(s.0, cause & 0b0001 != 0),
        count_if(s.1, cause & 0b0010 != 0),
        count_if(s.2, cause & 0b0100 != 0),
    )
}

/// Each counter moves only on its own cause bit: receive on bit 0, transmit
/// on bit 1, error on bit 2, each by one modulo 2^32; no other bit counts.
pub proof fn lemma_cause_bits_count_own_counter(s: (u32, u32, u32), cause: u32)
    ensures
        stats_after_cause(s, cause).0 == if cause & 1 != 0 {
            (s.0 + 1) % 0x1_0000_0000
        } else {
            s.0 as int
        },
        stats_after_cause(s, cause).1 == if cause & 2 != 0 {
            (s.1 + 1) % 0x1_0000_0000
        } else {
            s.1 as int
        },
        stats_after_cause(s, cause).2 == if cause & 4 != 0 {
            (s.2 + 1) % 0x1_0000_0000
        } else {
            s.2 as int
        },
{
    lemma_count_up_is_successor_mod_word(s.0, cause & 1 != 0);
    lemma_count_up_is_successor_mod_word(s.1, cause & 2 != 0);
    lemma_count_up_is_successor_mod_word(s.2, cause & 4 != 0);
}

impl View for PerDeviceIrqData {
    type V = (u32, u32, u32);

    closed spec fn view(&self) -> (u32, u32, u32) {
        (self.rx_packets, self.tx_packets, self.error_count)
    }
}

impl PerDeviceIrqData {
    /// All counters at zero.
    pub fn new() -> (d: Self)
        ensures
            d@ == (0u32, 0u32, 0u32),
    {
        PerDeviceIrqData { rx_packets: 0, tx_packets: 0, error_count: 0 }
    }

    /// Count a received packet.
    pub fn on_rx(&mut self)
        ensures
            final(self)@ == (count_up(old(self)@.0), old(self)@.1, old(self)@.2),
    {
        self.rx_packets = bump(self.rx_packets);
    }

    /// Count a transmitted packet.
    pub fn on_tx(&mut self)
        ensures
            final(self)@ == (old(self)@.0, count_up(old(self)@.1), old(self)@.2),
    {
        self.tx_packets = bump(self.tx_packets);
    }

    /// Count an error.
    pub fn on_error(&mut self)
        ensures
            final(self)@ == (old(self)@.0, old(self)@.1, count_up(old(self)@.2)),
    {
        self.error_count = bump(self.error_count);
    }

    /// The receive, transmit and error counts.
    pub fn stats(&self) -> (s: (u32, u32, u32))
        ensures
            s == self@,
    {
        (self.rx_packets, self.tx_packets, self.error_count)
    }

    /// Account for an interrupt whose cause register reads `cause`.
    ///
    /// A zero cause means the interrupt was not from this device.
    pub fn handle_cause(&mut self, cause: u32) -> (r: IrqReturn)
        ensures
            cause == 0 ==> r == IrqReturn::Unhandled && final(self)@ == old(self)@,
            cause != 0 ==> r == IrqReturn::Handled && final(self)@ == stats_after_cause(old(self)@, cause),
            cause != 0 ==> final(self)@.0 == if cause & 1 != 0 {
                (old(self)@.0 + 1) % 0x1_0000_0000
            } else {
                old(self)@.0 as int
            },
            cause != 0 ==> final(self)@.1 == if cause & 2 != 0 {
                (old(self)@.1 + 1) % 0x1_0000_0000
            } else {
                old(self)@.1 as int
            },
            cause != 0 ==> final(self)@.2 == if cause & 4 != 0 {
                (old(self)@.2 + 1) % 0x1_0000_0000
            } else {
                old(self)@.2 as int
            },
    {
        proof {
            lemma_cause_bits_count_own_counter(self@, cause);
        }
        if cause == 0 {
            return IrqReturn::Unhandled;
        }
        if cause & 0b0001 != 0 {
            self.on_rx();
        }
        if cause & 0b0010 != 0 {
            self.on_tx();
        }
        if cause & 0b0100 != 0 {
            self.on_error();
        }
        IrqReturn::Handled
    }
}

impl Default for PerDeviceIrqData {
    fn default() -> (d: Self)
        ensures
            d@ == (0u32, 0u32, 0u32),
    {
        Self::new()
    }
}

/// Interrupt handler for a device with per-device statistics.
///
/// The cause register reports a received and a transmitted packet, so both
/// counters go up and the interrupt is handled.
pub fn per_device_irq_handler(_irq: u32, dev: &mut PerDeviceIrqData) -> (r: IrqReturn)
    ensures
        r == IrqReturn::Handled,
        final(dev)@ == (count_up(old(dev)@.0), count_up(old(dev)@.1), old(dev)@.2),
{
    let cause: u32 = 0b0011;
    assert(cause & 0b0001 != 0 && cause & 0b0010 != 0 && cause & 0b0100 == 0) by (bit_vector)
        requires
            cause == 0b0011u32,
    ;
    dev.handle_cause(cause)
}

} // verus!
