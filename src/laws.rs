//! What writes and reads do to a simulated slave, and the laws that follow:
//! a write stores its value and puts one START and one STOP on the bus, a
//! read returns consecutive registers in order with one STOP, a value
//! written can be read back, and reading again returns the same bytes.

use vstd::prelude::*;

use vstd::arithmetic::div_mod::lemma_add_mod_noop_right;

use crate::i2c::{
    address_byte, read_head, read_last_three_steps, read_steps, stream_steps, write_steps, BusError,
    Flag, Step,
};
use crate::sim::{run_from, run_program, Phase, SimView, Signal};

verus! {

/// The simulation after a write of `value` to `register` of its slave.
pub open spec fn after_write(s: SimView, register: u8, value: u8) -> SimView {
    SimView {
        regs: s.regs.update(register as int, value),
        pointer: ((register + 1) % 256) as u8,
        phase: Phase::Idle,
        loaded: false,
        log: s.log + seq![
            Signal::Start,
            Signal::Address(address_byte(s.slave, false)),
            Signal::Written(register),
            Signal::Written(value),
            Signal::Stop,
        ],
        ..s
    }
}

/// `count` registers from `register` on, wrapping around after the last.
pub open spec fn registers_from(regs: Seq<u8>, register: u8, count: nat) -> Seq<u8> {
    Seq::new(count, |j: int| regs[(register + j) % 256])
}

/// The slave sending the bytes of a read from index `from` up to `to`.
pub open spec fn reads_between(regs: Seq<u8>, register: u8, from: nat, to: nat) -> Seq<Signal> {
    Seq::new((to - from) as nat, |j: int| Signal::Read(regs[(register + from + j) % 256]))
}

/// The number of bytes of a read of `length` that the slave sends before the STOP.
pub open spec fn sent_before_stop(length: nat) -> nat {
    if length >= 2 {
        (length - 2) as nat
    } else {
        0
    }
}

/// The simulation after a read of `length` bytes from `register` of its slave.
pub open spec fn after_read(s: SimView, register: u8, length: nat) -> SimView {
    SimView {
        pointer: ((register + length) % 256) as u8,
        phase: Phase::Idle,
        loaded: true,
        log: s.log + seq![
            Signal::Start,
            Signal::Address(address_byte(s.slave, false)),
            Signal::Written(register),
            Signal::Start,
            Signal::Address(address_byte(s.slave, true)),
        ] + reads_between(s.regs, register, 0, sent_before_stop(length)) + seq![Signal::Stop]
            + reads_between(s.regs, register, sent_before_stop(length), length),
        ..s
    }
}

/// A write to the slave of an idle simulation stores the value and completes.
pub proof fn lemma_write_run(s: SimView, register: u8, value: u8)
    requires
        s.wf(),
        s.phase == Phase::Idle,
    ensures
        run_program(s, write_steps(s.slave, register, value)) == (
            after_write(s, register, value),
            Ok::<Seq<u8>, BusError>(Seq::<u8>::empty()),
        ),
{
    reveal_with_fuel(run_from, 14);
    let p = write_steps(s.slave, register, value);
    assert(p.len() == 13);
    let r = run_program(s, p);
    let w = after_write(s, register, value);
    assert(r.0.log =~= w.log);
    assert(r.0.regs == w.regs);
    assert(r.0.pointer == w.pointer);
    assert(r.0.phase == w.phase);
    assert(r.0.loaded == w.loaded);
    assert(r.1 == Ok::<Seq<u8>, BusError>(Seq::<u8>::empty()));
}

/// The simulation once a read has selected `register` and addressed its
/// slave again for reading.
pub open spec fn after_read_head(s: SimView, register: u8) -> SimView {
    SimView {
        pointer: register,
        phase: Phase::Sending,
        loaded: true,
        log: s.log + seq![
            Signal::Start,
            Signal::Address(address_byte(s.slave, false)),
            Signal::Written(register),
            Signal::Start,
            Signal::Address(address_byte(s.slave, true)),
        ],
        ..s
    }
}

/// The simulation after the slave has sent `count` more bytes.
pub open spec fn after_stream(s: SimView, count: nat) -> SimView {
    SimView {
        pointer: ((s.pointer + count) % 256) as u8,
        log: s.log + reads_between(s.regs, s.pointer, 0, count),
        ..s
    }
}

proof fn lemma_wrap(a: int, j: int)
    ensures
        ((a % 256) + j) % 256 == (a + j) % 256,
{
    lemma_add_mod_noop_right(j, a, 256);
}

proof fn lemma_read_head_run(s: SimView, register: u8, length: nat)
    requires
        s.wf(),
        s.phase == Phase::Idle,
        length >= 1,
    ensures
        run_program(s, read_steps(s.slave, register, length)) == run_from(
            after_read_head(s, register),
            read_steps(s.slave, register, length),
            14,
            Seq::<u8>::empty(),
        ),
{
    let p = read_steps(s.slave, register, length);
    let e = Seq::<u8>::empty();
    assert(read_head(s.slave, register).len() == 14);
    let aw = address_byte(s.slave, false);
    let ar = address_byte(s.slave, true);
    let s2 = SimView { phase: Phase::Started, loaded: false, log: s.log.push(Signal::Start), ..s };
    let s3 = SimView { phase: Phase::Selecting, log: s2.log.push(Signal::Address(aw)), ..s2 };
    let s4 = SimView {
        pointer: register,
        phase: Phase::Storing,
        log: s3.log.push(Signal::Written(register)),
        ..s3
    };
    let s5 = SimView { phase: Phase::Started, loaded: false, log: s4.log.push(Signal::Start), ..s4 };
    let s6 = SimView { phase: Phase::Sending, loaded: true, log: s5.log.push(Signal::Address(ar)), ..s5 };
    reveal_with_fuel(run_from, 3);
    assert(run_from(s, p, 0, e) == run_from(s, p, 2, e));
    assert(run_from(s, p, 2, e) == run_from(s2, p, 4, e));
    assert(run_from(s2, p, 4, e) == run_from(s3, p, 6, e));
    assert(run_from(s3, p, 6, e) == run_from(s3, p, 8, e));
    assert(run_from(s3, p, 8, e) == run_from(s4, p, 10, e));
    assert(run_from(s4, p, 10, e) == run_from(s5, p, 12, e));
    assert(run_from(s5, p, 12, e) == run_from(s6, p, 14, e));
    assert(s6.log =~= after_read_head(s, register).log);
    assert(s6 == after_read_head(s, register));
}

/// A run of acknowledged bytes takes consecutive registers.
proof fn lemma_stream_run(s: SimView, p: Seq<Step>, i: nat, data: Seq<u8>, count: nat)
    requires
        s.wf(),
        s.phase == Phase::Sending,
        s.loaded,
        i + 2 * count <= p.len(),
        forall|j: int| 0 <= j < 2 * count ==> p[i + j] == #[trigger] stream_steps(count)[j],
    ensures
        run_from(s, p, i, data) == run_from(
            after_stream(s, count),
            p,
            i + 2 * count,
            data + registers_from(s.regs, s.pointer, count),
        ),
    decreases count,
{
    if count == 0 {
        assert(data + registers_from(s.regs, s.pointer, 0) =~= data);
        assert(after_stream(s, 0).log =~= s.log);
        assert(after_stream(s, 0) == s);
    } else {
        reveal_with_fuel(run_from, 3);
        assert(p[i as int] == stream_steps(count)[0]);
        assert(p[i + 1int] == stream_steps(count)[1]);
        let b = s.regs[s.pointer as int];
        let s1 = SimView {
            pointer: ((s.pointer + 1) % 256) as u8,
            log: s.log.push(Signal::Read(b)),
            ..s
        };
        assert(run_from(s, p, i, data) == run_from(s1, p, i + 2, data.push(b)));
        let rest = (count - 1) as nat;
        assert forall|j: int| 0 <= j < 2 * rest implies p[(i + 2) + j] == #[trigger] stream_steps(
            rest,
        )[j] by {
            assert(p[i + (j + 2)] == stream_steps(count)[j + 2]);
        }
        lemma_stream_run(s1, p, i + 2, data.push(b), rest);
        assert forall|j: int| 0 <= j < rest implies #[trigger] reads_between(
            s1.regs,
            s1.pointer,
            0,
            rest,
        )[j] == reads_between(s.regs, s.pointer, 0, count)[j + 1] by {
            lemma_wrap(s.pointer + 1, j);
        }
        assert(after_stream(s1, rest).log =~= after_stream(s, count).log);
        lemma_wrap(s.pointer + 1, rest as int);
        assert(after_stream(s1, rest) == after_stream(s, count));
        assert forall|j: int| 0 <= j < rest implies #[trigger] registers_from(
            s1.regs,
            s1.pointer,
            rest,
        )[j] == registers_from(s.regs, s.pointer, count)[j + 1] by {
            lemma_wrap(s.pointer + 1, j);
        }
        assert(data.push(b) + registers_from(s1.regs, s1.pointer, rest) =~= data + registers_from(
            s.regs,
            s.pointer,
            count,
        ));
    }
}

proof fn lemma_read_one_run(s: SimView, register: u8)
    requires
        s.wf(),
        s.phase == Phase::Idle,
    ensures
        run_program(s, read_steps(s.slave, register, 1)) == (
            after_read(s, register, 1),
            Ok::<Seq<u8>, BusError>(registers_from(s.regs, register, 1)),
        ),
{
    lemma_read_head_run(s, register, 1);
    let p = read_steps(s.slave, register, 1);
    let a = after_read(s, register, 1);
    reveal_with_fuel(run_from, 6);
    assert(p.len() == 19);
    let r = run_from(after_read_head(s, register), p, 14, Seq::<u8>::empty());
    assert(r.0.log =~= a.log);
    assert(r.0 == a);
    assert(r.1->Ok_0 =~= registers_from(s.regs, register, 1));
}

proof fn lemma_read_two_run(s: SimView, register: u8)
    requires
        s.wf(),
        s.phase == Phase::Idle,
    ensures
        run_program(s, read_steps(s.slave, register, 2)) == (
            after_read(s, register, 2),
            Ok::<Seq<u8>, BusError>(registers_from(s.regs, register, 2)),
        ),
{
    lemma_read_head_run(s, register, 2);
    let p = read_steps(s.slave, register, 2);
    let a = after_read(s, register, 2);
    reveal_with_fuel(run_from, 8);
    assert(p.len() == 21);
    lemma_wrap(register + 1, 1);
    let r = run_from(after_read_head(s, register), p, 14, Seq::<u8>::empty());
    assert(r.0.log =~= a.log);
    assert(r.0 == a);
    assert(r.1->Ok_0 =~= registers_from(s.regs, register, 2));
}

/// The closing sequence of a longer read, from the state after the stream.
proof fn lemma_last_three_run(m: SimView, p: Seq<Step>, i: nat, d: Seq<u8>)
    requires
        m.wf(),
        m.phase == Phase::Sending,
        m.loaded,
        p.len() == i + 8,
        p.subrange(i as int, i + 8int) == read_last_three_steps(),
    ensures
        run_from(m, p, i, d) == (
            SimView {
                pointer: ((m.pointer + 3) % 256) as u8,
                phase: Phase::Idle,
                log: m.log + seq![
                    Signal::Read(m.regs[m.pointer as int]),
                    Signal::Stop,
                    Signal::Read(m.regs[(m.pointer + 1) % 256]),
                    Signal::Read(m.regs[(m.pointer + 2) % 256]),
                ],
                ..m
            },
            Ok::<Seq<u8>, BusError>(
                d.push(m.regs[m.pointer as int]).push(m.regs[(m.pointer + 1) % 256]).push(
                    m.regs[(m.pointer + 2) % 256],
                ),
            ),
        ),
{
    assert forall|j: int| 0 <= j < 8 implies p[i + j] == #[trigger] read_last_three_steps()[j] by {
        assert(p.subrange(i as int, i + 8int)[j] == p[i + j]);
    }
    lemma_wrap(m.pointer + 1, 1);
    let x = m.regs[m.pointer as int];
    let y = m.regs[(m.pointer + 1) % 256];
    let z = m.regs[(m.pointer + 2) % 256];
    let m1 = SimView {
        pointer: ((m.pointer + 1) % 256) as u8,
        log: m.log.push(Signal::Read(x)),
        ..m
    };
    let m2 = SimView { phase: Phase::Idle, log: m1.log.push(Signal::Stop), ..m1 };
    let m3 = SimView {
        pointer: ((m.pointer + 2) % 256) as u8,
        log: m2.log.push(Signal::Read(y)),
        ..m2
    };
    let m4 = SimView {
        pointer: ((m.pointer + 3) % 256) as u8,
        log: m3.log.push(Signal::Read(z)),
        ..m3
    };
    reveal_with_fuel(run_from, 4);
    assert(run_from(m, p, i, d) == run_from(m1, p, i + 3, d.push(x)));
    assert(run_from(m1, p, i + 3, d.push(x)) == run_from(m3, p, i + 5, d.push(x).push(y)));
    assert(run_from(m3, p, i + 5, d.push(x).push(y)) == run_from(
        m4,
        p,
        i + 8,
        d.push(x).push(y).push(z),
    ));
    assert(m4.log =~= m.log + seq![
        Signal::Read(x),
        Signal::Stop,
        Signal::Read(y),
        Signal::Read(z),
    ]);
}

/// From the repeated address on, a read of `count + 3` bytes: the slave
/// sends `count + 3` consecutive registers, with the STOP before the last two.
proof fn lemma_read_many_tail_run(h: SimView, p: Seq<Step>, count: nat)
    requires
        h.wf(),
        h.phase == Phase::Sending,
        h.loaded,
        p.len() == 23 + 2 * count,
        p[14] == Step::ClearAddress,
        forall|j: int| 0 <= j < 2 * count ==> p[15 + j] == #[trigger] stream_steps(count)[j],
        p.subrange(15 + 2 * count as int, 23 + 2 * count as int) == read_last_three_steps(),
    ensures
        run_from(h, p, 14, Seq::<u8>::empty()) == (
            SimView {
                pointer: ((h.pointer + count + 3) % 256) as u8,
                phase: Phase::Idle,
                log: h.log + reads_between(h.regs, h.pointer, 0, count + 1) + seq![Signal::Stop]
                    + reads_between(h.regs, h.pointer, count + 1, count + 3),
                ..h
            },
            Ok::<Seq<u8>, BusError>(registers_from(h.regs, h.pointer, count + 3)),
        ),
{
    let e = Seq::<u8>::empty();
    assert(run_from(h, p, 14, e) == run_from(h, p, 15, e)) by {
        reveal_with_fuel(run_from, 2);
    }
    lemma_stream_run(h, p, 15, e, count);
    let m = after_stream(h, count);
    let d = e + registers_from(h.regs, h.pointer, count);
    lemma_last_three_run(m, p, 15 + 2 * count, d);
    lemma_wrap(h.pointer + count, 1);
    lemma_wrap(h.pointer + count, 2);
    lemma_wrap(h.pointer + count, 3);
    let x = m.regs[m.pointer as int];
    let y = m.regs[(m.pointer + 1) % 256];
    let z = m.regs[(m.pointer + 2) % 256];
    let before = reads_between(h.regs, h.pointer, 0, count);
    assert(reads_between(h.regs, h.pointer, 0, count + 1) =~= before.push(Signal::Read(x)));
    assert(reads_between(h.regs, h.pointer, count + 1, count + 3) =~= seq![
        Signal::Read(y),
        Signal::Read(z),
    ]);
    assert(h.log + before.push(Signal::Read(x)) + seq![Signal::Stop] + seq![
        Signal::Read(y),
        Signal::Read(z),
    ] =~= m.log + seq![Signal::Read(x), Signal::Stop, Signal::Read(y), Signal::Read(z)]);
    assert(d.push(x).push(y).push(z) =~= registers_from(h.regs, h.pointer, count + 3));
}

proof fn lemma_read_many_run(s: SimView, register: u8, length: nat)
    requires
        s.wf(),
        s.phase == Phase::Idle,
        length >= 3,
    ensures
        run_program(s, read_steps(s.slave, register, length)) == (
            after_read(s, register, length),
            Ok::<Seq<u8>, BusError>(registers_from(s.regs, register, length)),
        ),
{
    lemma_read_head_run(s, register, length);
    let p = read_steps(s.slave, register, length);
    let k = (length - 3) as nat;
    assert(p.len() == 23 + 2 * k);
    assert(p[14] == Step::ClearAddress);
    assert forall|j: int| 0 <= j < 2 * k implies p[15 + j] == #[trigger] stream_steps(k)[j] by {}
    assert(p.subrange(15 + 2 * k as int, 23 + 2 * k as int) =~= read_last_three_steps());
    lemma_read_many_tail_run(after_read_head(s, register), p, k);
}

/// A read from the slave of an idle simulation returns `length` consecutive
/// registers from `register` on, and leaves the bus idle.
pub proof fn lemma_read_run(s: SimView, register: u8, length: nat)
    requires
        s.wf(),
        s.phase == Phase::Idle,
        length >= 1,
    ensures
        run_program(s, read_steps(s.slave, register, length)) == (
            after_read(s, register, length),
            Ok::<Seq<u8>, BusError>(registers_from(s.regs, register, length)),
        ),
{
    if length == 1 {
        lemma_read_one_run(s, register);
    } else if length == 2 {
        lemma_read_two_run(s, register);
    } else {
        lemma_read_many_run(s, register, length);
    }
}

/// What a transfer added to the bus record of `s` to give that of `t`.
pub open spec fn added_signals(s: SimView, t: SimView) -> Seq<Signal> {
    t.log.subrange(s.log.len() as int, t.log.len() as int)
}

/// `signal` occurs once and only once in `log`.
pub open spec fn occurs_once(log: Seq<Signal>, signal: Signal) -> bool {
    exists|k: int|
        0 <= k < log.len() && log[k] == signal && forall|j: int|
            0 <= j < log.len() && #[trigger] log[j] == signal ==> j == k
}

proof fn lemma_occurs_once(log: Seq<Signal>, k: int, signal: Signal)
    requires
        0 <= k < log.len(),
        log[k] == signal,
        forall|j: int| 0 <= j < log.len() && j != k ==> #[trigger] log[j] != signal,
    ensures
        occurs_once(log, signal),
{
}

/// A write puts on the bus one START, the address for writing, the register
/// index, the value, and one STOP, in that order, and nothing else.
pub proof fn law_write_signals(s: SimView, register: u8, value: u8)
    requires
        s.wf(),
        s.phase == Phase::Idle,
    ensures
        run_program(s, write_steps(s.slave, register, value)).1 is Ok,
        run_program(s, write_steps(s.slave, register, value)).0.log.subrange(0, s.log.len() as int)
            == s.log,
        added_signals(s, run_program(s, write_steps(s.slave, register, value)).0) == seq![
            Signal::Start,
            Signal::Address(address_byte(s.slave, false)),
            Signal::Written(register),
            Signal::Written(value),
            Signal::Stop,
        ],
        occurs_once(
            added_signals(s, run_program(s, write_steps(s.slave, register, value)).0),
            Signal::Start,
        ),
        occurs_once(
            added_signals(s, run_program(s, write_steps(s.slave, register, value)).0),
            Signal::Stop,
        ),
{
    lemma_write_run(s, register, value);
    let t = after_write(s, register, value);
    let w = added_signals(s, t);
    let lit = seq![
        Signal::Start,
        Signal::Address(address_byte(s.slave, false)),
        Signal::Written(register),
        Signal::Written(value),
        Signal::Stop,
    ];
    assert(t.log.subrange(0, s.log.len() as int) =~= s.log);
    assert(w =~= lit);
    assert forall|j: int| 0 <= j < 5 && j != 0 implies #[trigger] lit[j] != Signal::Start by {
        if j == 1 {
        } else if j == 2 {
        } else if j == 3 {
        } else {
        }
    }
    lemma_occurs_once(w, 0, Signal::Start);
    assert forall|j: int| 0 <= j < 5 && j != 4 implies #[trigger] lit[j] != Signal::Stop by {
        if j == 0 {
        } else if j == 1 {
        } else if j == 2 {
        } else {
        }
    }
    lemma_occurs_once(w, 4, Signal::Stop);
}

/// The bus record of a read of `length` bytes from `register`, after the
/// record it started from: the selection of the register, the repeated
/// address, the bytes sent before the STOP, the STOP, and the last bytes.
pub open spec fn read_signals(slave: u8, regs: Seq<u8>, register: u8, length: nat) -> Seq<Signal> {
    seq![
        Signal::Start,
        Signal::Address(address_byte(slave, false)),
        Signal::Written(register),
        Signal::Start,
        Signal::Address(address_byte(slave, true)),
    ] + reads_between(regs, register, 0, sent_before_stop(length)) + seq![Signal::Stop]
        + reads_between(regs, register, sent_before_stop(length), length)
}

/// A read of `length` bytes returns the slave's registers from `register`
/// on, in the order the slave sent them, and puts one STOP on the bus.
pub proof fn law_read_in_order(s: SimView, register: u8, length: nat)
    requires
        s.wf(),
        s.phase == Phase::Idle,
        length >= 1,
    ensures
        run_program(s, read_steps(s.slave, register, length)).1 == Ok::<Seq<u8>, BusError>(
            Seq::new(length, |j: int| s.regs[(register + j) % 256]),
        ),
        run_program(s, read_steps(s.slave, register, length)).0.log.subrange(0, s.log.len() as int)
            == s.log,
        added_signals(s, run_program(s, read_steps(s.slave, register, length)).0) == read_signals(
            s.slave,
            s.regs,
            register,
            length,
        ),
        occurs_once(
            added_signals(s, run_program(s, read_steps(s.slave, register, length)).0),
            Signal::Stop,
        ),
{
    lemma_read_run(s, register, length);
    let t = after_read(s, register, length);
    let w = added_signals(s, t);
    let h = sent_before_stop(length);
    let head = seq![
        Signal::Start,
        Signal::Address(address_byte(s.slave, false)),
        Signal::Written(register),
        Signal::Start,
        Signal::Address(address_byte(s.slave, true)),
    ];
    let r1 = reads_between(s.regs, register, 0, h);
    let r2 = reads_between(s.regs, register, h, length);
    assert(t.log.subrange(0, s.log.len() as int) =~= s.log);
    assert(w =~= read_signals(s.slave, s.regs, register, length));
    let k = 5 + h;
    assert forall|j: int| 0 <= j < w.len() && j != k implies #[trigger] w[j] != Signal::Stop by {
        if j < 5 {
            assert(w[j] == head[j]);
            if j == 0 {
            } else if j == 1 {
            } else if j == 2 {
            } else if j == 3 {
            } else {
            }
        } else if j < k {
            assert(w[j] == r1[j - 5]);
        } else {
            assert(w[j] == r2[j - k - 1]);
        }
    }
    lemma_occurs_once(w, k as int, Signal::Stop);
}

/// A value written to a register of the slave is read back by a one-byte
/// read of that register.
pub proof fn law_write_then_read(s: SimView, register: u8, value: u8)
    requires
        s.wf(),
        s.phase == Phase::Idle,
    ensures
        ({
            let (t, w) = run_program(s, write_steps(s.slave, register, value));
            let (u, r) = run_program(t, read_steps(s.slave, register, 1));
            &&& w is Ok
            &&& r == Ok::<Seq<u8>, BusError>(seq![value])
        }),
{
    lemma_write_run(s, register, value);
    let t = after_write(s, register, value);
    lemma_read_run(t, register, 1);
    assert(registers_from(t.regs, register, 1) =~= seq![value]);
}

/// Reading the same registers twice, with nothing written in between,
/// returns the same bytes.
pub proof fn law_read_repeats(s: SimView, register: u8, length: nat)
    requires
        s.wf(),
        s.phase == Phase::Idle,
        length >= 1,
    ensures
        ({
            let (t, first) = run_program(s, read_steps(s.slave, register, length));
            let (u, second) = run_program(t, read_steps(s.slave, register, length));
            &&& first is Ok
            &&& second == first
        }),
{
    lemma_read_run(s, register, length);
    let t = after_read(s, register, length);
    lemma_read_run(t, register, length);
}

} // verus!
