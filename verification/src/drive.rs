//! Drive train control: the signal translator, the task model, and the
//! scheduler with its brake-interrupt/resume protocol.
//!
//! All control signals are PWM descriptions; the scheduler owns no pins.
//! It records the output states it commands, and a caller mirrors them onto
//! the hardware. Times are plain values: timestamps in milliseconds handed
//! in by the caller, durations in milliseconds held by each task.

use std::collections::VecDeque;
use vstd::prelude::*;

verus! {

/// PWM carrier frequency for the driven motor phase, in hertz.
pub const MOTOR_PWM_HZ: u64 = 50;

/// Full-scale throttle, in thousandths of full scale.
pub const THROTTLE_FULL: u16 = 1000;

/// Servo PWM period, in milliseconds.
pub const SERVO_PERIOD_MS: u64 = 20;

/// Servo pulse width that centers the steering, in microseconds.
pub const SERVO_CENTER_US: u64 = 1250;

/// Drive gear commanded to the two-phase motor driver.
#[derive(Debug, Clone, Copy, PartialEq, Eq, Structural)]
pub enum Gear {
    /// Coast: neither phase driven.
    Drift,
    /// Forward at the given throttle, in thousandths of full scale.
    Ahead(u16),
    /// Reverse at the given throttle, in thousandths of full scale.
    Reverse(u16),
    /// Both phases driven high.
    Brake,
}

/// Steering command: the servo pulse width, not an angle.
#[derive(Debug, Clone, Copy, PartialEq, Eq, Structural)]
pub enum Diversion {
    /// The fixed center pulse width.
    Straight,
    /// A raw pulse width in microseconds, precomputed by the caller and not
    /// validated against the servo's safe travel range.
    Turn(u64),
}

/// Output state of one motor phase pin.
#[derive(Debug, Clone, Copy, PartialEq, Eq, Structural)]
pub enum PhaseSignal {
    Low,
    High,
    /// PWM at `MOTOR_PWM_HZ` with the given duty, in thousandths.
    Pwm(u16),
}

/// Output states of the two motor phase pins.
#[derive(Debug, Clone, Copy, PartialEq, Eq, Structural)]
pub struct MotorSignal {
    /// The forward drive phase.
    pub forward: PhaseSignal,
    /// The reverse drive phase.
    pub backward: PhaseSignal,
}

/// Output state of the steering servo pin.
#[derive(Debug, Clone, Copy, PartialEq, Eq, Structural)]
pub struct ServoSignal {
    /// Pulse period, in milliseconds.
    pub period_ms: u64,
    /// On-time within each period, in microseconds.
    pub pulse_us: u64,
}

/// The full actuator output commanded for one task.
#[derive(Debug, Clone, Copy, PartialEq, Eq, Structural)]
pub struct SignalPlan {
    pub motor: MotorSignal,
    pub servo: ServoSignal,
}

/// A throttle brought into `[0, THROTTLE_FULL]`: values above full scale
/// clamp to full scale.
pub open spec fn clamped_throttle(t: u16) -> u16 {
    if t > THROTTLE_FULL {
        THROTTLE_FULL
    } else {
        t
    }
}

/// The motor phase states a gear translates to.
pub open spec fn motor_signal(gear: Gear) -> MotorSignal {
    match gear {
        Gear::Drift => MotorSignal { forward: PhaseSignal::Low, backward: PhaseSignal::Low },
        Gear::Ahead(t) => MotorSignal {
            forward: PhaseSignal::Pwm(clamped_throttle(t)),
            backward: PhaseSignal::Low,
        },
        Gear::Reverse(t) => MotorSignal {
            forward: PhaseSignal::Low,
            backward: PhaseSignal::Pwm(clamped_throttle(t)),
        },
        Gear::Brake => MotorSignal { forward: PhaseSignal::High, backward: PhaseSignal::High },
    }
}

/// The servo state a diversion translates to.
pub open spec fn servo_signal(diversion: Diversion) -> ServoSignal {
    match diversion {
        Diversion::Straight => ServoSignal {
            period_ms: SERVO_PERIOD_MS,
            pulse_us: SERVO_CENTER_US,
        },
        Diversion::Turn(pw) => ServoSignal { period_ms: SERVO_PERIOD_MS, pulse_us: pw },
    }
}

/// The full output a gear and a diversion translate to.
pub open spec fn signal_plan(gear: Gear, diversion: Diversion) -> SignalPlan {
    SignalPlan { motor: motor_signal(gear), servo: servo_signal(diversion) }
}

/// Translate a gear into the two motor phase states.
///
/// The motor needs two PWM-capable pins; the first carries the forward
/// drive. A throttle above full scale is clamped to full scale, so every
/// input yields a well-formed duty.
pub fn run_motor(gear: Gear) -> (sig: MotorSignal)
    ensures
        sig == motor_signal(gear),
{
    match gear {
        Gear::Drift => MotorSignal { forward: PhaseSignal::Low, backward: PhaseSignal::Low },
        Gear::Ahead(accelerator) => {
            let duty = if accelerator > THROTTLE_FULL {
                THROTTLE_FULL
            } else {
                accelerator
            };
            MotorSignal { forward: PhaseSignal::Pwm(duty), backward: PhaseSignal::Low }
        },
        Gear::Reverse(accelerator) => {
            let duty = if accelerator > THROTTLE_FULL {
                THROTTLE_FULL
            } else {
                accelerator
            };
            MotorSignal { forward: PhaseSignal::Low, backward: PhaseSignal::Pwm(duty) }
        },
        Gear::Brake => MotorSignal { forward: PhaseSignal::High, backward: PhaseSignal::High },
    }
}

/// Translate a diversion into the single servo PWM state.
pub fn run_senvo(diversion: Diversion) -> (sig: ServoSignal)
    ensures
        sig == servo_signal(diversion),
{
    match diversion {
        Diversion::Straight => ServoSignal {
            period_ms: SERVO_PERIOD_MS,
            pulse_us: SERVO_CENTER_US,
        },
        Diversion::Turn(direction) => ServoSignal {
            period_ms: SERVO_PERIOD_MS,
            pulse_us: direction,
        },
    }
}

/// Translate a gear and a diversion into the actuator output states.
///
/// A throttle outside `[0, THROTTLE_FULL]` is clamped predictably: the duty
/// commanded for `Ahead(t)` or `Reverse(t)` is `clamped_throttle(t)`.
pub fn apply(gear: Gear, diversion: Diversion) -> (plan: SignalPlan)
    ensures
        plan == signal_plan(gear, diversion),
{
    SignalPlan { motor: run_motor(gear), servo: run_senvo(diversion) }
}

/// Clamping is total: above full scale, a throttle drives exactly the
/// full-scale signal, for forward and reverse gears alike.
pub proof fn lemma_throttle_clamped(t: u16, diversion: Diversion)
    requires
        t > THROTTLE_FULL,
    ensures
        signal_plan(Gear::Ahead(t), diversion) == signal_plan(
            Gear::Ahead(THROTTLE_FULL),
            diversion,
        ),
        signal_plan(Gear::Reverse(t), diversion) == signal_plan(
            Gear::Reverse(THROTTLE_FULL),
            diversion,
        ),
{
}

/// Duration of the brake pulse pushed by the brake interrupt, in
/// milliseconds.
pub const BRAKE_PULSE_MS: u64 = 10000;

/// The timing record of a task: when it was registered, started and
/// finished, in milliseconds of the caller's clock.
#[derive(Debug, Clone, Copy, PartialEq, Eq)]
pub struct Times {
    /// When the task was pushed onto the queue.
    pub reg: u64,
    /// When the scheduler began executing the task, once it has.
    pub start: Option<u64>,
    /// When the task completed or was interrupted, once it has.
    pub fine: Option<u64>,
}

/// One motion task: an immutable command plus its timing record.
#[derive(Debug, Clone, Copy, PartialEq, Eq)]
pub struct ControlMes {
    /// The commanded gear.
    pub mode: Gear,
    /// The commanded steering.
    pub diversion: Diversion,
    /// How long the signal is held, in milliseconds.
    pub duration: u64,
    /// The task's timing record.
    pub date: Times,
}

/// A task as it is born: registered now, neither started nor finished.
pub open spec fn fresh_task(mode: Gear, diversion: Diversion, duration: u64, now_ms: u64) -> ControlMes {
    ControlMes {
        mode,
        diversion,
        duration,
        date: Times { reg: now_ms, start: None, fine: None },
    }
}

impl ControlMes {
    /// Register a task at the given clock reading.
    pub fn new(mode: Gear, diversion: Diversion, duration: u64, now_ms: u64) -> (task: ControlMes)
        ensures
            task == fresh_task(mode, diversion, duration, now_ms),
    {
        ControlMes {
            mode,
            diversion,
            duration,
            date: Times { reg: now_ms, start: None, fine: None },
        }
    }
}

/// A named, pre-built task sequence selected when the scheduler is loaded.
#[derive(Debug, Clone, Copy, PartialEq, Eq, Structural)]
pub enum LaunchMode {
    /// Load nothing.
    Sleep,
    /// A canned exercise sequence.
    Debug,
    /// Interrupt the in-flight task: brake, then resume.
    Brake,
    /// The pre-planned dead-reckoning path.
    DeadWhell,
}

/// The controller's failure classes.
#[derive(Debug, Clone, Copy, PartialEq, Eq, Structural)]
pub enum ControlFault {
    /// A GPIO or PWM resource could not be claimed at construction or
    /// reset: fatal, the process must not proceed.
    ResourceAcquisition,
    /// Programming a signal failed while a task was applied: fatal to the
    /// active run.
    Actuator,
    /// The queue was touched in a way the protocol forbids, such as
    /// interrupting or finishing when nothing is in flight.
    QueueInvariantViolation,
}

/// The scheduler's abstract state: the queued tasks in execution order, the
/// current launch mode, the last commanded actuator outputs, and whether an
/// actuator fault has degraded the run.
#[verifier::ext_equal]
pub ghost struct SchedModel {
    pub tasks: Seq<ControlMes>,
    pub mode: LaunchMode,
    pub motor: MotorSignal,
    pub senvo: ServoSignal,
    pub degraded: bool,
}

/// The motor output a freshly built or reset controller commands: coasting.
pub open spec fn default_motor() -> MotorSignal {
    motor_signal(Gear::Drift)
}

/// The servo output a freshly built or reset controller commands: centered.
pub open spec fn default_senvo() -> ServoSignal {
    servo_signal(Diversion::Straight)
}

/// The state of a freshly built controller.
pub open spec fn new_model(mode: LaunchMode) -> SchedModel {
    SchedModel {
        tasks: Seq::empty(),
        mode,
        motor: default_motor(),
        senvo: default_senvo(),
        degraded: false,
    }
}

/// The canned exercise sequence of the debug mode.
pub open spec fn debug_tasks(now_ms: u64) -> Seq<ControlMes> {
    seq![
        fresh_task(Gear::Ahead(100), Diversion::Turn(1250), 10000, now_ms),
        fresh_task(Gear::Brake, Diversion::Straight, 10000, now_ms),
        fresh_task(Gear::Reverse(100), Diversion::Turn(1450), 10000, now_ms),
        fresh_task(Gear::Drift, Diversion::Straight, 10000, now_ms),
    ]
}

/// The pre-planned dead-reckoning path: a calibrated straight run, a pause,
/// then staged turns.
pub open spec fn dead_whell_tasks(now_ms: u64) -> Seq<ControlMes> {
    seq![
        fresh_task(Gear::Ahead(300), Diversion::Straight, 3150, now_ms),
        fresh_task(Gear::Ahead(0), Diversion::Straight, 2000, now_ms),
        fresh_task(Gear::Ahead(0), Diversion::Turn(900), 2000, now_ms),
        fresh_task(Gear::Ahead(400), Diversion::Turn(1050), 2500, now_ms),
    ]
}

/// Milliseconds of the head task's duration not yet spent when the clock
/// reads `now_ms`: zero if the clock ran past the duration, and zero as
/// well if the clock reads earlier than the recorded start.
pub open spec fn remainder_of(duration: u64, started_ms: u64, now_ms: u64) -> u64 {
    let elapsed = if now_ms >= started_ms {
        (now_ms - started_ms) as u64
    } else {
        0u64
    };
    if duration > elapsed {
        (duration - elapsed) as u64
    } else {
        0u64
    }
}

/// The fixed-duration brake pulse the interrupt pushes.
pub open spec fn brake_task(now_ms: u64) -> ControlMes {
    fresh_task(Gear::Brake, Diversion::Straight, BRAKE_PULSE_MS, now_ms)
}

/// The task that resumes an interrupted command: the original gear, a
/// straight diversion, and the remainder of the original duration.
pub open spec fn resumption_task(gear: Gear, remainder_ms: u64, now_ms: u64) -> ControlMes {
    fresh_task(gear, Diversion::Straight, remainder_ms, now_ms)
}

/// What the brake interrupt pushes for an interrupted head: the brake
/// pulse, then — unless no time was left — the resumption task.
pub open spec fn brake_successors(head: ControlMes, now_ms: u64) -> Seq<ControlMes> {
    let rem = remainder_of(head.duration, head.date.start->0, now_ms);
    if rem > 0 {
        seq![brake_task(now_ms), resumption_task(head.mode, rem, now_ms)]
    } else {
        seq![brake_task(now_ms)]
    }
}

/// What loading a mode does to the scheduler's state.
///
/// Every mode records itself as the current mode. Sleep appends nothing;
/// Debug and DeadWhell append their canned sequences. Brake pops the
/// in-flight head without waiting out its remaining time and pushes its
/// successors to the tail; with no in-flight head — an empty queue, or a
/// head that never started — it is a queue invariant violation and the
/// state is untouched.
pub open spec fn load_model(m: SchedModel, mode: LaunchMode, now_ms: u64) -> Result<
    SchedModel,
    ControlFault,
> {
    match mode {
        LaunchMode::Sleep => Ok(SchedModel { mode, ..m }),
        LaunchMode::Debug => Ok(SchedModel { mode, tasks: m.tasks + debug_tasks(now_ms), ..m }),
        LaunchMode::DeadWhell => Ok(
            SchedModel { mode, tasks: m.tasks + dead_whell_tasks(now_ms), ..m },
        ),
        LaunchMode::Brake => {
            if m.tasks.len() == 0 || m.tasks[0].date.start is None {
                Err(ControlFault::QueueInvariantViolation)
            } else {
                Ok(
                    SchedModel {
                        mode,
                        tasks: m.tasks.drop_first() + brake_successors(m.tasks[0], now_ms),
                        ..m
                    },
                )
            }
        },
    }
}

/// Whether the scheduler would start a task: it is not degraded and the
/// queue is not empty.
pub open spec fn can_start(m: SchedModel) -> bool {
    !m.degraded && m.tasks.len() > 0
}

/// The state after the head task is started: its start time is recorded
/// and its translated signals become the commanded outputs.
pub open spec fn started_model(m: SchedModel, now_ms: u64) -> SchedModel {
    let head = m.tasks[0];
    let started = ControlMes { date: Times { start: Some(now_ms), ..head.date }, ..head };
    SchedModel {
        tasks: m.tasks.update(0, started),
        motor: motor_signal(head.mode),
        senvo: servo_signal(head.diversion),
        ..m
    }
}

/// Whether the head task can be finished: it exists and is in flight.
pub open spec fn can_finish(m: SchedModel) -> bool {
    m.tasks.len() > 0 && m.tasks[0].date.start is Some
}

/// The head task as it is popped: its finish time recorded.
pub open spec fn finished_head(m: SchedModel, now_ms: u64) -> ControlMes {
    let head = m.tasks[0];
    ControlMes { date: Times { fine: Some(now_ms), ..head.date }, ..head }
}

/// The state after the head task is finished and popped.
pub open spec fn finished_model(m: SchedModel) -> SchedModel {
    SchedModel { tasks: m.tasks.drop_first(), ..m }
}

/// The state after an actuator fault is reported: the run is degraded, the
/// safe coasting outputs are commanded, and the remaining queue is left
/// untouched.
pub open spec fn fault_model(m: SchedModel) -> SchedModel {
    SchedModel { motor: default_motor(), senvo: default_senvo(), degraded: true, ..m }
}

/// The state after a reset: mode Sleep, default outputs, no degradation;
/// the queue is kept.
pub open spec fn reset_model(m: SchedModel) -> SchedModel {
    SchedModel {
        mode: LaunchMode::Sleep,
        motor: default_motor(),
        senvo: default_senvo(),
        degraded: false,
        ..m
    }
}

/// Well-formedness of a task sequence: at most the head task is in flight,
/// and no queued task is already finished.
pub open spec fn tasks_wf(tasks: Seq<ControlMes>) -> bool {
    &&& forall|i: int| 1 <= i < tasks.len() ==> (#[trigger] tasks[i]).date.start is None
    &&& forall|i: int| 0 <= i < tasks.len() ==> (#[trigger] tasks[i]).date.fine is None
}

/// The scheduler's invariant: its queue is well-formed.
pub open spec fn queue_wf(m: SchedModel) -> bool {
    tasks_wf(m.tasks)
}

/// The motion scheduler: an ordered queue of tasks, the current launch
/// mode, and the record of the actuator outputs it last commanded.
///
/// The scheduler owns no hardware. A caller acquires the pins, mirrors the
/// commanded `SignalPlan`s onto them, waits out each task's duration, and
/// reports back: clock readings for `load_stats`, `start_next` and
/// `finish_current`, and faults through `report_fault`.
pub struct ControlManger {
    motor_tasks: VecDeque<ControlMes>,
    launch_mode: LaunchMode,
    motor_pwm: MotorSignal,
    senvo_pwm: ServoSignal,
    degraded: bool,
}

impl View for ControlManger {
    type V = SchedModel;

    closed spec fn view(&self) -> SchedModel {
        SchedModel {
            tasks: self.motor_tasks@,
            mode: self.launch_mode,
            motor: self.motor_pwm,
            senvo: self.senvo_pwm,
            degraded: self.degraded,
        }
    }
}

impl ControlManger {
    /// Build a scheduler with an empty queue and the default outputs.
    pub fn new(launch_mode: LaunchMode) -> (manger: ControlManger)
        ensures
            manger@ == new_model(launch_mode),
    {
        let manger = ControlManger {
            motor_tasks: VecDeque::new(),
            launch_mode,
            motor_pwm: run_motor(Gear::Drift),
            senvo_pwm: run_senvo(Diversion::Straight),
            degraded: false,
        };
        proof {
            assert(manger@ =~= new_model(launch_mode));
        }
        manger
    }

    /// How many tasks are queued, the in-flight head included.
    pub fn task_count(&self) -> (n: usize)
        ensures
            n == self@.tasks.len(),
    {
        self.motor_tasks.len()
    }

    /// Whether the scheduler is idle: nothing queued, nothing in flight.
    pub fn is_idle(&self) -> (idle: bool)
        ensures
            idle == (self@.tasks.len() == 0),
    {
        self.motor_tasks.len() == 0
    }

    /// The queued task at the given position, the head at zero.
    pub fn task_at(&self, i: usize) -> (task: ControlMes)
        requires
            i < self@.tasks.len(),
        ensures
            task == self@.tasks[i as int],
    {
        self.motor_tasks[i]
    }

    /// The current launch mode.
    pub fn current_mode(&self) -> (mode: LaunchMode)
        ensures
            mode == self@.mode,
    {
        self.launch_mode
    }

    /// The motor output last commanded.
    pub fn motor_output(&self) -> (sig: MotorSignal)
        ensures
            sig == self@.motor,
    {
        self.motor_pwm
    }

    /// The servo output last commanded.
    pub fn senvo_output(&self) -> (sig: ServoSignal)
        ensures
            sig == self@.senvo,
    {
        self.senvo_pwm
    }

    /// Whether an actuator fault has degraded the run.
    pub fn is_degraded(&self) -> (d: bool)
        ensures
            d == self@.degraded,
    {
        self.degraded
    }

    /// Enqueue one task at the tail.
    ///
    /// This is the integration point for a perception collaborator: it
    /// produces a diversion or a full task, and the caller enqueues it
    /// before running the scheduler.
    pub fn push_task(&mut self, task: ControlMes)
        ensures
            final(self)@ == (SchedModel { tasks: old(self)@.tasks.push(task), ..old(self)@ }),
    {
        self.motor_tasks.push_back(task);
        proof {
            assert(self@ =~= (SchedModel { tasks: old(self)@.tasks.push(task), ..old(self)@ }));
        }
    }

    /// Load the task sequence of a launch mode, exactly as `load_model`
    /// says: append the mode's canned tasks, or — for Brake — run the
    /// interrupt protocol on the in-flight head. On an invariant violation
    /// the error is returned and the state is untouched.
    pub fn load_stats(&mut self, mode: LaunchMode, now_ms: u64) -> (r: Result<(), ControlFault>)
        ensures
            match load_model(old(self)@, mode, now_ms) {
                Ok(m2) => r is Ok && final(self)@ == m2,
                Err(e) => r == Err::<(), ControlFault>(e) && final(self)@ == old(self)@,
            },
    {
        match mode {
            LaunchMode::Debug => {
                self.launch_mode = mode;
                self.motor_tasks.push_back(
                    ControlMes::new(Gear::Ahead(100), Diversion::Turn(1250), 10000, now_ms),
                );
                self.motor_tasks.push_back(
                    ControlMes::new(Gear::Brake, Diversion::Straight, 10000, now_ms),
                );
                self.motor_tasks.push_back(
                    ControlMes::new(Gear::Reverse(100), Diversion::Turn(1450), 10000, now_ms),
                );
                self.motor_tasks.push_back(
                    ControlMes::new(Gear::Drift, Diversion::Straight, 10000, now_ms),
                );
                proof {
                    assert(self@.tasks =~= old(self)@.tasks + debug_tasks(now_ms));
                    assert(self@ =~= load_model(old(self)@, mode, now_ms)->Ok_0);
                }
                Ok(())
            },
            LaunchMode::DeadWhell => {
                self.launch_mode = mode;
                self.motor_tasks.push_back(
                    ControlMes::new(Gear::Ahead(300), Diversion::Straight, 3150, now_ms),
                );
                self.motor_tasks.push_back(
                    ControlMes::new(Gear::Ahead(0), Diversion::Straight, 2000, now_ms),
                );
                self.motor_tasks.push_back(
                    ControlMes::new(Gear::Ahead(0), Diversion::Turn(900), 2000, now_ms),
                );
                self.motor_tasks.push_back(
                    ControlMes::new(Gear::Ahead(400), Diversion::Turn(1050), 2500, now_ms),
                );
                proof {
                    assert(self@.tasks =~= old(self)@.tasks + dead_whell_tasks(now_ms));
                    assert(self@ =~= load_model(old(self)@, mode, now_ms)->Ok_0);
                }
                Ok(())
            },
            LaunchMode::Brake => {
                if self.motor_tasks.len() == 0 {
                    return Err(ControlFault::QueueInvariantViolation);
                }
                let started = self.motor_tasks[0].date.start;
                match started {
                    None => Err(ControlFault::QueueInvariantViolation),
                    Some(started_ms) => {
                        self.launch_mode = mode;
                        let killed = match self.motor_tasks.pop_front() {
                            Some(task) => task,
                            None => {
                                return Err(ControlFault::QueueInvariantViolation);
                            },
                        };
                        let elapsed = if now_ms >= started_ms {
                            now_ms - started_ms
                        } else {
                            0
                        };
                        let last_time = if killed.duration > elapsed {
                            killed.duration - elapsed
                        } else {
                            0
                        };
                        self.motor_tasks.push_back(
                            ControlMes::new(
                                Gear::Brake,
                                Diversion::Straight,
                                BRAKE_PULSE_MS,
                                now_ms,
                            ),
                        );
                        if last_time > 0 {
                            self.motor_tasks.push_back(
                                ControlMes::new(killed.mode, Diversion::Straight, last_time, now_ms),
                            );
                        }
                        proof {
                            assert(self@.tasks =~= old(self)@.tasks.drop_first()
                                + brake_successors(old(self)@.tasks[0], now_ms));
                            assert(self@ =~= load_model(old(self)@, mode, now_ms)->Ok_0);
                        }
                        Ok(())
                    },
                }
            },
            LaunchMode::Sleep => {
                self.launch_mode = mode;
                proof {
                    assert(self@ =~= load_model(old(self)@, mode, now_ms)->Ok_0);
                }
                Ok(())
            },
        }
    }

    /// Begin the head task: record its start time, translate its command,
    /// and command the translated outputs. Returns the started task — its
    /// duration is how long the caller must hold the signal — together
    /// with the plan to mirror onto the pins. Returns nothing, and changes
    /// nothing, when the queue is empty or the run is degraded.
    pub fn start_next(&mut self, now_ms: u64) -> (r: Option<(ControlMes, SignalPlan)>)
        ensures
            can_start(old(self)@) ==> {
                let m2 = started_model(old(self)@, now_ms);
                &&& final(self)@ == m2
                &&& r == Some(
                    (m2.tasks[0], SignalPlan { motor: m2.motor, servo: m2.senvo }),
                )
            },
            !can_start(old(self)@) ==> r is None && final(self)@ == old(self)@,
    {
        if self.degraded || self.motor_tasks.len() == 0 {
            return None;
        }
        let mut head = match self.motor_tasks.pop_front() {
            Some(task) => task,
            None => {
                return None;
            },
        };
        head.date.start = Some(now_ms);
        let plan = apply(head.mode, head.diversion);
        self.motor_pwm = plan.motor;
        self.senvo_pwm = plan.servo;
        self.motor_tasks.push_front(head);
        proof {
            assert(self@.tasks =~= started_model(old(self)@, now_ms).tasks);
            assert(self@ =~= started_model(old(self)@, now_ms));
        }
        Some((head, plan))
    }

    /// Finish the in-flight head: record its finish time and pop it. The
    /// finished task is returned for the caller's run log. Finishing with
    /// an empty queue, or a head that never started, is a queue invariant
    /// violation and changes nothing.
    pub fn finish_current(&mut self, now_ms: u64) -> (r: Result<ControlMes, ControlFault>)
        ensures
            can_finish(old(self)@) ==> r == Ok::<ControlMes, ControlFault>(
                finished_head(old(self)@, now_ms),
            ) && final(self)@ == finished_model(old(self)@),
            !can_finish(old(self)@) ==> r == Err::<ControlMes, ControlFault>(
                ControlFault::QueueInvariantViolation,
            ) && final(self)@ == old(self)@,
    {
        if self.motor_tasks.len() == 0 {
            return Err(ControlFault::QueueInvariantViolation);
        }
        let started = self.motor_tasks[0].date.start;
        if started.is_none() {
            return Err(ControlFault::QueueInvariantViolation);
        }
        let mut done = match self.motor_tasks.pop_front() {
            Some(task) => task,
            None => {
                return Err(ControlFault::QueueInvariantViolation);
            },
        };
        done.date.fine = Some(now_ms);
        proof {
            assert(self@ =~= finished_model(old(self)@));
        }
        Ok(done)
    }

    /// Report an actuator fault: the run is degraded — `start_next` will
    /// begin nothing further — the remaining queue is left untouched, and
    /// the guaranteed-safe coasting plan is commanded and returned for the
    /// caller to drive before halting.
    pub fn report_fault(&mut self) -> (safe: SignalPlan)
        ensures
            final(self)@ == fault_model(old(self)@),
            safe == signal_plan(Gear::Drift, Diversion::Straight),
    {
        let safe = apply(Gear::Drift, Diversion::Straight);
        self.motor_pwm = safe.motor;
        self.senvo_pwm = safe.servo;
        self.degraded = true;
        proof {
            assert(self@ =~= fault_model(old(self)@));
        }
        safe
    }

    /// Reset to a safe idle: mode Sleep, default outputs, degradation
    /// cleared. The caller re-acquires fresh actuator handles alongside.
    /// The queue is kept as it stands.
    pub fn reset(self) -> (manger: ControlManger)
        ensures
            manger@ == reset_model(self@),
    {
        let mut manger = self;
        manger.motor_pwm = run_motor(Gear::Drift);
        manger.senvo_pwm = run_senvo(Diversion::Straight);
        manger.launch_mode = LaunchMode::Sleep;
        manger.degraded = false;
        proof {
            assert(manger@ =~= reset_model(self@));
        }
        manger
    }
}

/// A batch of unstarted, unfinished tasks appended at the tail keeps a
/// queue well-formed.
proof fn lemma_append_fresh_wf(s: Seq<ControlMes>, batch: Seq<ControlMes>)
    requires
        tasks_wf(s),
        forall|j: int|
            0 <= j < batch.len() ==> (#[trigger] batch[j]).date.start is None
                && batch[j].date.fine is None,
    ensures
        tasks_wf(s + batch),
{
    let t = s + batch;
    assert forall|i: int| 1 <= i < t.len() implies (#[trigger] t[i]).date.start is None by {
        if i < s.len() {
            assert(t[i] == s[i]);
        } else {
            assert(t[i] == batch[i - s.len()]);
        }
    }
    assert forall|i: int| 0 <= i < t.len() implies (#[trigger] t[i]).date.fine is None by {
        if i < s.len() {
            assert(t[i] == s[i]);
        } else {
            assert(t[i] == batch[i - s.len()]);
        }
    }
}

/// Loading any mode preserves the queue invariant: appended tasks are
/// fresh, and the brake protocol replaces the in-flight head with fresh
/// successors.
pub proof fn lemma_load_preserves_queue_wf(m: SchedModel, mode: LaunchMode, now_ms: u64)
    requires
        queue_wf(m),
    ensures
        load_model(m, mode, now_ms) matches Ok(m2) ==> queue_wf(m2),
{
    match mode {
        LaunchMode::Sleep => {
        },
        LaunchMode::Debug => {
            lemma_append_fresh_wf(m.tasks, debug_tasks(now_ms));
        },
        LaunchMode::DeadWhell => {
            lemma_append_fresh_wf(m.tasks, dead_whell_tasks(now_ms));
        },
        LaunchMode::Brake => {
            if m.tasks.len() > 0 && m.tasks[0].date.start is Some {
                let rest = m.tasks.drop_first();
                assert(forall|i: int|
                    1 <= i < rest.len() ==> (#[trigger] rest[i]).date.start is None);
                lemma_append_fresh_wf(rest, brake_successors(m.tasks[0], now_ms));
            }
        },
    }
}

/// Starting the head task preserves the queue invariant: only the head is
/// marked in flight.
pub proof fn lemma_start_preserves_queue_wf(m: SchedModel, now_ms: u64)
    requires
        queue_wf(m),
        m.tasks.len() > 0,
    ensures
        queue_wf(started_model(m, now_ms)),
{
}

/// Finishing the head task preserves the queue invariant: the finished
/// task leaves, and the rest never started.
pub proof fn lemma_finish_preserves_queue_wf(m: SchedModel)
    requires
        queue_wf(m),
        m.tasks.len() > 0,
    ensures
        queue_wf(finished_model(m)),
{
}

/// Faults and resets leave the queue alone, so they preserve its
/// invariant.
pub proof fn lemma_fault_reset_preserve_queue_wf(m: SchedModel)
    requires
        queue_wf(m),
    ensures
        queue_wf(fault_model(m)),
        queue_wf(reset_model(m)),
{
}

/// Loading the sleep mode on an idle scheduler is a no-op run: the queue
/// stays empty, no task can start, and the commanded outputs are
/// untouched — zero actuator invocations.
pub proof fn lemma_sleep_load_runs_nothing(m: SchedModel, now_ms: u64)
    requires
        m.tasks.len() == 0,
    ensures
        load_model(m, LaunchMode::Sleep, now_ms) is Ok,
        load_model(m, LaunchMode::Sleep, now_ms)->Ok_0.tasks.len() == 0,
        !can_start(load_model(m, LaunchMode::Sleep, now_ms)->Ok_0),
        load_model(m, LaunchMode::Sleep, now_ms)->Ok_0.motor == m.motor,
        load_model(m, LaunchMode::Sleep, now_ms)->Ok_0.senvo == m.senvo,
{
}

/// Resetting is idempotent: a second reset changes nothing.
pub proof fn lemma_reset_idempotent(m: SchedModel)
    ensures
        reset_model(reset_model(m)) == reset_model(m),
{
}

/// The brake interrupt protocol: interrupting an in-flight head of
/// duration `D` after `E < D` milliseconds yields, at the tail and in
/// order, the fixed-duration brake pulse followed by a resumption task
/// with the original gear, a Straight diversion, and duration `D - E`;
/// the pending tail keeps its order ahead of them, and no elapsed time is
/// lost or double-counted.
pub proof fn lemma_brake_interrupt_shape(m: SchedModel, now_ms: u64, started_ms: u64)
    requires
        m.tasks.len() > 0,
        m.tasks[0].date.start == Some(started_ms),
        started_ms <= now_ms,
        now_ms - started_ms < m.tasks[0].duration,
    ensures
        load_model(m, LaunchMode::Brake, now_ms) is Ok,
        ({
            let head = m.tasks[0];
            let m2 = load_model(m, LaunchMode::Brake, now_ms)->Ok_0;
            let n = m.tasks.len() - 1;
            &&& m2.tasks.len() == n + 2
            &&& m2.tasks.subrange(0, n as int) == m.tasks.drop_first()
            &&& m2.tasks[n as int] == brake_task(now_ms)
            &&& m2.tasks[n as int].mode == Gear::Brake
            &&& m2.tasks[n as int].duration == BRAKE_PULSE_MS
            &&& m2.tasks[n + 1] == resumption_task(
                head.mode,
                (head.duration - (now_ms - started_ms)) as u64,
                now_ms,
            )
            &&& m2.tasks[n + 1].mode == head.mode
            &&& m2.tasks[n + 1].diversion == Diversion::Straight
            &&& m2.tasks[n + 1].duration == head.duration - (now_ms - started_ms)
        }),
{
    let head = m.tasks[0];
    let succ = brake_successors(head, now_ms);
    let rem = remainder_of(head.duration, started_ms, now_ms);
    assert(rem == head.duration - (now_ms - started_ms));
    assert(succ.len() == 2);
    let m2 = load_model(m, LaunchMode::Brake, now_ms)->Ok_0;
    let n = m.tasks.len() - 1;
    assert(m2.tasks.subrange(0, n as int) =~= m.tasks.drop_first());
    assert(m2.tasks[n as int] == succ[0]);
    assert(m2.tasks[n + 1] == succ[1]);
}

/// One run step executes exactly the head task: starting and then
/// finishing pops the original head — its command untouched, its start
/// and finish times recorded — and leaves the tail, in order, as the new
/// queue. Queue order is execution order.
pub proof fn lemma_run_step_executes_head(m: SchedModel, start_ms: u64, finish_ms: u64)
    requires
        can_start(m),
    ensures
        can_finish(started_model(m, start_ms)),
        ({
            let m1 = started_model(m, start_ms);
            let done = finished_head(m1, finish_ms);
            &&& done.mode == m.tasks[0].mode
            &&& done.diversion == m.tasks[0].diversion
            &&& done.duration == m.tasks[0].duration
            &&& done.date.reg == m.tasks[0].date.reg
            &&& done.date.start == Some(start_ms)
            &&& done.date.fine == Some(finish_ms)
            &&& finished_model(m1).tasks == m.tasks.drop_first()
        }),
{
    let m1 = started_model(m, start_ms);
    assert(m1.tasks.drop_first() =~= m.tasks.drop_first());
}

/// An actuator fault halts the run before any queued task executes: the
/// remaining queue entries are untouched, no further task can start, and
/// the safe coasting outputs are the last thing commanded.
pub proof fn lemma_fault_halts_run(m: SchedModel)
    ensures
        fault_model(m).tasks == m.tasks,
        !can_start(fault_model(m)),
        fault_model(m).motor == default_motor(),
        fault_model(m).senvo == default_senvo(),
{
}

} // verus!
