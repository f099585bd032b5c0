//! The decisions of the demonstration programs that the entry point runs.
use vstd::prelude::*;

verus! {

/// A demonstration program.
#[derive(Clone, Copy, Debug, PartialEq, Eq, Structural)]
pub enum Demo {
    /// Forks twice; each process prints its own counter forever.
    ForkTest,
    /// Two processes pass a counter back and forth over IPC.
    PingPong,
    /// A forked child and its parent grow copies of one heap vector.
    HeapTest,
}

/// The program that the entry point runs for argument `arg`, if any.
pub fn select_demo(arg: usize) -> (d: Option<Demo>)
    ensures
        d == (if arg == 0 {
            Some(Demo::ForkTest)
        } else if arg == 1 {
            Some(Demo::PingPong)
        } else if arg == 2 {
            Some(Demo::HeapTest)
        } else {
            None
        }),
{
    match arg {
        0 => Some(Demo::ForkTest),
        1 => Some(Demo::PingPong),
        2 => Some(Demo::HeapTest),
        _ => None,
    }
}

/// The counter that a process of the fork test prints: 1 in the first
/// parent, 2 in the first child (which forks again), 3 in the grandchild.
/// `first` is what the first `fork` returned, `second` what the second
/// returned (only looked at where `first` is 0).
pub fn fktest_counter(first: i32, second: i32) -> (a: u32)
    ensures
        a == (if first != 0 { 1u32 } else if second != 0 { 2u32 } else { 3u32 }),
{
    let mut a: u32 = 0;
    if first == 0 {
        if second == 0 {
            a += 3;
            return a;
        }
        a += 2;
        return a;
    }
    a += 1;
    a
}

/// What each process of the heap test does with the vector it built
/// before `fork` (where `fork_result` is what `fork` returned): the parent
/// pushes 4 and 5, the child leaves it as it is.
pub fn heap_test_grow(a: &mut Vec<i32>, fork_result: i32)
    ensures
        final(a)@ == (if fork_result != 0 { old(a)@ + seq![4i32, 5i32] } else { old(a)@ }),
{
    if fork_result != 0 {
        a.push(4);
        a.push(5);
        assert(a@ =~= old(a)@ + seq![4i32, 5i32]);
    }
}

/// What a ping-pong player does with a received counter.
#[derive(Clone, Copy, Debug, PartialEq, Eq, Structural)]
pub enum PingPongStep {
    /// The counter reached 10: stop.
    Stop,
    /// Send `value` back; stop afterwards if `last`.
    Reply { value: usize, last: bool },
}

/// What a ping-pong player does with the received counter `value`.
pub fn pingpong_step(value: usize) -> (s: PingPongStep)
    requires
        value == 10 || value < usize::MAX,
    ensures
        s == (if value == 10 {
            PingPongStep::Stop
        } else {
            PingPongStep::Reply { value: (value + 1) as usize, last: value + 1 == 10 }
        }),
{
    if value == 10 {
        return PingPongStep::Stop;
    }
    let value = value + 1;
    PingPongStep::Reply { value, last: value == 10 }
}

} // verus!
