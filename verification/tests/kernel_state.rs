use rrtos::exceptions::Cpu;
use rrtos::global_allocator::heap_alloc;
use rrtos::global_allocator::heap_dealloc;
use rrtos::global_allocator::BumpPointerAlloc;
use rrtos::global_allocator::HEAP_SIZE;
use rrtos::global_allocator::HEAP_START;
use rrtos::led::init;
use rrtos::led::set_output;
use rrtos::led::toggle;
use rrtos::mutex::Mutex;
use rrtos::sysdata::SystemData;
use rrtos::systick::count_get;
use rrtos::systick::count_incr;
use rrtos::systick::systick_handler;
use rrtos::systick::Count;

fn led_level(led: &mut Mutex<Option<bool>>) -> Option<bool> {
    let guard = led.lock();
    let level = *led.get(&guard);
    led.unlock(guard);
    level
}

#[test]
fn test_tick_counter_counts() {
    let mut count = Mutex::new(Count::new(0));
    assert_eq!(0, count_get(&mut count));
    count_incr(&mut count);
    assert_eq!(1, count_get(&mut count));
    count_incr(&mut count);
    count_incr(&mut count);
    assert_eq!(3, count_get(&mut count));
    assert!(!count.is_locked());
}

#[test]
fn test_tick_counter_wraps() {
    let mut count = Mutex::new(Count::new(u32::MAX));
    count_incr(&mut count);
    assert_eq!(0, count_get(&mut count));

    let mut c = Count::new(u32::MAX);
    c.incr();
    assert_eq!(0, c.0);
}

#[test]
fn test_systick_handler_ticks_and_pends() {
    let mut cpu = Cpu::new();
    let mut count = Mutex::new(Count::new(9));
    systick_handler(&mut cpu, &mut count);
    assert_eq!(10, count_get(&mut count));
    assert!(cpu.pendsv_pending); // the switch happens after the interrupt
}

#[test]
fn test_led_init_set_toggle() {
    let mut led: Mutex<Option<bool>> = Mutex::new(None);
    assert_eq!(None, led_level(&mut led));

    init(&mut led, false);
    assert_eq!(Some(false), led_level(&mut led));

    set_output(&mut led, true);
    assert_eq!(Some(true), led_level(&mut led));
    set_output(&mut led, false);
    assert_eq!(Some(false), led_level(&mut led));

    toggle(&mut led);
    assert_eq!(Some(true), led_level(&mut led));
    toggle(&mut led);
    assert_eq!(Some(false), led_level(&mut led));
    assert!(!led.is_locked());
}

#[test]
fn test_bump_allocator_exact_addresses() {
    let mut a = BumpPointerAlloc::new();
    assert_eq!(0x2001_0000, a.head);
    assert_eq!(0x2001_0000 + 1024, a.end);

    // first block starts at the (aligned) heap base
    assert_eq!(0x2001_0000, a.allocate(100, 8));
    assert_eq!(0x2001_0064, a.head);

    // the cursor moves up to the next alignment boundary
    assert_eq!(0x2001_0068, a.allocate(8, 8));
    assert_eq!(0x2001_0070, a.head);

    // byte-aligned allocation packs tightly
    assert_eq!(0x2001_0070, a.allocate(1, 1));
    assert_eq!(0x2001_0071, a.head);
}

#[test]
fn test_bump_allocator_out_of_space() {
    let mut a = BumpPointerAlloc::new();
    // the null address signals out of space, and nothing moves
    assert_eq!(0, a.allocate(HEAP_SIZE + 1, 1));
    assert_eq!(HEAP_START, a.head);

    // the whole range in one block is fine
    assert_eq!(HEAP_START, a.allocate(HEAP_SIZE, 1));
    assert_eq!(HEAP_START + HEAP_SIZE, a.head);

    // now even a single byte no longer fits
    assert_eq!(0, a.allocate(1, 1));

    // deallocation never reclaims
    a.deallocate(HEAP_START);
    assert_eq!(HEAP_START + HEAP_SIZE, a.head);
}

#[test]
fn test_heap_behind_mutex() {
    let mut heap = Mutex::new(BumpPointerAlloc::new());
    let p = heap_alloc(&mut heap, 16, 4);
    assert_eq!(HEAP_START, p);
    heap_dealloc(&mut heap, p);
    let q = heap_alloc(&mut heap, 16, 4);
    assert_eq!(HEAP_START + 16, q); // dealloc reclaimed nothing
    assert!(!heap.is_locked());
}

#[test]
fn test_system_data_new() {
    let _d = SystemData::new();
    let _d2 = SystemData::default();
}
