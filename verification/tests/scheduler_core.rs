use rosthern::kernel::{BootPhase, Kernel};
use rosthern::mailbox::{Mailbox, MailboxSignal};
use rosthern::register_file::{RegisterFile, REGISTER_COUNT};
use rosthern::task_table::{TaskQueue, ENGINE_TASK_ENTRY, MAIN_TASK_ENTRY};
use rosthern::tick::{ClockSource, SysTick, TICK_CLOCK_CYCLES};
use rosthern::Fault;

fn live_words(fill: u32) -> Vec<u32> {
    vec![fill; REGISTER_COUNT]
}

fn two_task_kernel() -> Kernel {
    Kernel::new(TaskQueue::new(), Mailbox::new(0x2000_0100, 4))
}

#[test]
fn round_robin_alternates_over_two_tasks() {
    let mut table = TaskQueue::new();
    assert_eq!(table.len(), 2);
    assert_eq!(table.current_task(), 0);
    let mut seen = Vec::new();
    for _ in 0..6 {
        seen.push(table.advance());
    }
    assert_eq!(seen, vec![1, 0, 1, 0, 1, 0]);
}

#[test]
fn round_robin_cycles_over_four_tasks_without_repeats_or_skips() {
    let entries = vec![11usize, 22, 33, 44];
    let mut table = TaskQueue::with_tasks(&entries);
    assert_eq!(table.len(), 4);
    let mut seen = vec![table.current_task()];
    for _ in 0..8 {
        seen.push(table.advance());
    }
    assert_eq!(seen, vec![0, 1, 2, 3, 0, 1, 2, 3, 0]);
}

#[test]
fn table_slots_record_position_and_entry() {
    let table = TaskQueue::new();
    let slots = table.get_tasks();
    assert_eq!(slots[0].index, 0);
    assert_eq!(slots[0].entry, MAIN_TASK_ENTRY);
    assert_eq!(slots[1].index, 1);
    assert_eq!(slots[1].entry, ENGINE_TASK_ENTRY);
}

#[test]
fn register_round_trip_all_zeroes() {
    let live = live_words(0);
    let file = RegisterFile::capture(&live);
    assert_eq!(file.restore(), live);
}

#[test]
fn register_round_trip_all_ones() {
    let live = live_words(0xFFFF_FFFF);
    let file = RegisterFile::capture(&live);
    assert_eq!(file.restore(), live);
}

#[test]
fn register_round_trip_counting_pattern() {
    let live: Vec<u32> = (1..=13).collect();
    let file = RegisterFile::capture(&live);
    assert_eq!(file.restore(), live);
}

#[test]
fn fresh_register_file_is_zeroed() {
    let file = RegisterFile::new();
    assert_eq!(file.restore(), live_words(0));
}

#[test]
fn mailbox_pointer_is_idempotent() {
    let mut mailbox = Mailbox::new(0x2000_0040, 10);
    let first = mailbox.get_pointer();
    assert_eq!(mailbox.get_pointer(), first);
    mailbox.write_byte(3, 0xAB);
    mailbox.write_byte(0, 1);
    assert_eq!(mailbox.get_pointer(), first);
    assert_eq!(mailbox.get_pointer(), 0x2000_0040);
}

#[test]
fn mailbox_starts_cleared() {
    let mailbox = Mailbox::new(0x2000_0040, 4);
    assert_eq!(mailbox.len(), 4);
    for i in 0..4 {
        assert_eq!(mailbox.read_byte(i), 0);
    }
}

#[test]
fn snoop_accepts_the_noop_value() {
    let mailbox = Mailbox::new(0x2000_0040, 4);
    assert_eq!(mailbox.snoop(), Ok(MailboxSignal::NoOp));
}

#[test]
fn snoop_accepts_the_notify_value() {
    let mut mailbox = Mailbox::new(0x2000_0040, 4);
    mailbox.write_byte(0, 1);
    assert_eq!(mailbox.snoop(), Ok(MailboxSignal::Notify));
}

#[test]
fn snoop_halts_on_unrecognized_value() {
    let mut mailbox = Mailbox::new(0x2000_0040, 4);
    mailbox.write_byte(0, 7);
    assert_eq!(mailbox.snoop(), Err(Fault::UnrecognizedMessage { value: 7 }));
}

#[test]
fn five_switches_run_tasks_alternately() {
    let mut kernel = two_task_kernel();
    let entry = kernel.boot(TICK_CLOCK_CYCLES).expect("first boot succeeds");
    let mut run_order = vec![entry];
    for _ in 0..5 {
        let outcome = kernel.handle_tick(&live_words(0)).expect("tick with clear mailbox");
        run_order.push(kernel.task_slots()[outcome.next_task].entry);
    }
    let a = MAIN_TASK_ENTRY;
    let b = ENGINE_TASK_ENTRY;
    assert_eq!(run_order, vec![a, b, a, b, a, b]);
}

#[test]
fn switch_away_and_back_restores_registers_untouched() {
    let mut kernel = two_task_kernel();
    kernel.boot(TICK_CLOCK_CYCLES).expect("first boot succeeds");
    // task 0 is interrupted holding 1..=13; task 1 runs and is itself
    // interrupted holding different words; task 0 then resumes.
    let task_a_words: Vec<u32> = (1..=13).collect();
    assert_eq!(kernel.current_task(), 0);
    let to_b = kernel.handle_tick(&task_a_words).expect("switch away from task 0");
    assert_eq!(to_b.next_task, 1);
    assert_eq!(kernel.current_task(), 1);
    let back_to_a = kernel.handle_tick(&live_words(0xDEAD_BEEF)).expect("switch back to task 0");
    assert_eq!(back_to_a.next_task, 0);
    assert_eq!(back_to_a.resume, task_a_words);
}

#[test]
fn peripherals_are_granted_exactly_once() {
    let mut kernel = two_task_kernel();
    assert_eq!(kernel.acquire_peripherals(), Ok(()));
    assert_eq!(kernel.acquire_peripherals(), Err(Fault::PeripheralUnavailable));
}

#[test]
fn second_boot_fails_fatally() {
    let mut kernel = two_task_kernel();
    assert!(kernel.boot(TICK_CLOCK_CYCLES).is_ok());
    assert_eq!(kernel.boot(TICK_CLOCK_CYCLES), Err(Fault::PeripheralUnavailable));
}

#[test]
fn boot_walks_the_phases_in_order() {
    let mut kernel = two_task_kernel();
    assert_eq!(kernel.phase(), BootPhase::Uninitialized);
    assert!(!kernel.running());
    assert_eq!(kernel.acquire_peripherals(), Ok(()));
    assert_eq!(kernel.phase(), BootPhase::PeripheralsAcquired);
    kernel.arm_tick(TICK_CLOCK_CYCLES);
    assert_eq!(kernel.phase(), BootPhase::TickArmed);
    let entry = kernel.start();
    assert_eq!(entry, MAIN_TASK_ENTRY);
    assert_eq!(kernel.phase(), BootPhase::Running);
    assert!(kernel.running());
}

#[test]
fn boot_arms_the_reference_tick() {
    let mut kernel = two_task_kernel();
    kernel.boot(TICK_CLOCK_CYCLES).expect("first boot succeeds");
    let systick = kernel.systick();
    assert_eq!(systick.reload(), 10_000);
    assert_eq!(systick.current(), 0);
    assert_eq!(systick.clock_source(), ClockSource::Core);
    assert!(systick.counter_enabled());
    assert!(systick.interrupt_enabled());
    assert!(systick.armed());
}

#[test]
fn configure_arms_a_reset_timer() {
    let mut systick = SysTick::new();
    assert!(!systick.armed());
    systick.set_clock_source(ClockSource::External);
    systick.configure(2_500);
    assert_eq!(systick.reload(), 2_500);
    assert_eq!(systick.current(), 0);
    assert_eq!(systick.clock_source(), ClockSource::External);
    assert!(systick.armed());
}

#[test]
fn tick_with_unrecognized_message_is_fatal() {
    let mut kernel = two_task_kernel();
    kernel.boot(TICK_CLOCK_CYCLES).expect("first boot succeeds");
    kernel.write_mailbox(0, 7);
    assert_eq!(
        kernel.handle_tick(&live_words(0)),
        Err(Fault::UnrecognizedMessage { value: 7 })
    );
    // the fault left the kernel untouched, so clearing the mailbox
    // lets scheduling go on
    kernel.write_mailbox(0, 0);
    assert!(kernel.handle_tick(&live_words(0)).is_ok());
}

#[test]
fn tick_reports_the_notify_signal() {
    let mut kernel = two_task_kernel();
    kernel.boot(TICK_CLOCK_CYCLES).expect("first boot succeeds");
    kernel.write_mailbox(0, 1);
    let outcome = kernel.handle_tick(&live_words(0)).expect("notify is recognized");
    assert_eq!(outcome.signal, MailboxSignal::Notify);
}

#[test]
fn kernel_mailbox_is_shared_storage() {
    let mut kernel = two_task_kernel();
    assert_eq!(kernel.mailbox_pointer(), 0x2000_0100);
    kernel.write_mailbox(2, 9);
    assert_eq!(kernel.read_mailbox(2), 9);
    assert_eq!(kernel.mailbox_pointer(), 0x2000_0100);
}

#[test]
fn single_task_table_switches_to_itself() {
    let entries = vec![77usize];
    let mut kernel = Kernel::new(TaskQueue::with_tasks(&entries), Mailbox::new(0x2000_0200, 1));
    let entry = kernel.boot(TICK_CLOCK_CYCLES).expect("first boot succeeds");
    assert_eq!(entry, 77);
    let words: Vec<u32> = (100..113).collect();
    let outcome = kernel.handle_tick(&words).expect("tick with clear mailbox");
    assert_eq!(outcome.next_task, 0);
    assert_eq!(outcome.resume, words);
}
