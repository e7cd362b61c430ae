use car_ctrl::drive::{
    apply, ControlFault, ControlManger, ControlMes, Diversion, Gear, LaunchMode, MotorSignal,
    PhaseSignal, ServoSignal, SignalPlan,
};

/// Drive the scheduler to completion with a simulated clock, collecting
/// every commanded plan. Returns the plans and the final clock reading.
fn run_to_idle(manger: &mut ControlManger, mut clock: u64) -> (Vec<SignalPlan>, u64) {
    let mut plans: Vec<SignalPlan> = Vec::new();
    let mut guard: u32 = 0;
    while let Some((task, plan)) = manger.start_next(clock) {
        plans.push(plan);
        clock += task.duration;
        manger.finish_current(clock).expect("an in-flight task must finish");
        guard += 1;
        assert!(guard < 100, "the queue must drain");
    }
    (plans, clock)
}

#[test]
fn test_drive() {
    let mut manger = ControlManger::new(LaunchMode::DeadWhell);
    manger.load_stats(LaunchMode::DeadWhell, 0).unwrap();
    let (plans, clock) = run_to_idle(&mut manger, 0);
    assert_eq!(plans.len(), 4);
    assert_eq!(clock, 3150 + 2000 + 2000 + 2500);
    assert!(manger.is_idle());
}

#[test]
fn test_throttle_clamped() {
    // Throttle is in thousandths of full scale: anything above full scale
    // drives exactly the full-scale duty, forward and reverse alike.
    for t in [1001u16, 1500, u16::MAX] {
        let plan = apply(Gear::Ahead(t), Diversion::Straight);
        assert_eq!(plan.motor.forward, PhaseSignal::Pwm(1000));
        assert_eq!(plan.motor.backward, PhaseSignal::Low);
        let plan = apply(Gear::Reverse(t), Diversion::Straight);
        assert_eq!(plan.motor.forward, PhaseSignal::Low);
        assert_eq!(plan.motor.backward, PhaseSignal::Pwm(1000));
    }
    // In range, the throttle passes through unchanged.
    let plan = apply(Gear::Ahead(999), Diversion::Straight);
    assert_eq!(plan.motor.forward, PhaseSignal::Pwm(999));
    let plan = apply(Gear::Ahead(1000), Diversion::Straight);
    assert_eq!(plan.motor.forward, PhaseSignal::Pwm(1000));
    let plan = apply(Gear::Ahead(0), Diversion::Straight);
    assert_eq!(plan.motor.forward, PhaseSignal::Pwm(0));
}

#[test]
fn test_translator_table() {
    let coast = MotorSignal { forward: PhaseSignal::Low, backward: PhaseSignal::Low };
    assert_eq!(apply(Gear::Drift, Diversion::Straight).motor, coast);
    let braking = MotorSignal { forward: PhaseSignal::High, backward: PhaseSignal::High };
    assert_eq!(apply(Gear::Brake, Diversion::Straight).motor, braking);
    let center = ServoSignal { period_ms: 20, pulse_us: 1250 };
    assert_eq!(apply(Gear::Drift, Diversion::Straight).servo, center);
    let turned = ServoSignal { period_ms: 20, pulse_us: 1400 };
    assert_eq!(apply(Gear::Drift, Diversion::Turn(1400)).servo, turned);
}

#[test]
fn test_sleep_noop() {
    // Scenario: a Sleep load then a run is a no-op — the queue stays
    // empty and not one actuator plan is commanded.
    let mut manger = ControlManger::new(LaunchMode::Sleep);
    manger.load_stats(LaunchMode::Sleep, 7).unwrap();
    assert_eq!(manger.task_count(), 0);
    let (plans, clock) = run_to_idle(&mut manger, 7);
    assert_eq!(plans.len(), 0);
    assert_eq!(clock, 7);
    assert!(manger.is_idle());
    let coast = MotorSignal { forward: PhaseSignal::Low, backward: PhaseSignal::Low };
    assert_eq!(manger.motor_output(), coast);
}

#[test]
fn test_reset_idempotent() {
    // Two schedulers brought through the same history; one reset once,
    // the other twice, must agree in every observable.
    let build = || {
        let mut manger = ControlManger::new(LaunchMode::Debug);
        manger.load_stats(LaunchMode::Debug, 3).unwrap();
        manger.start_next(4);
        manger.report_fault();
        manger
    };
    let once = build().reset();
    let twice = build().reset().reset();
    assert_eq!(once.current_mode(), LaunchMode::Sleep);
    assert_eq!(twice.current_mode(), LaunchMode::Sleep);
    assert_eq!(once.motor_output(), twice.motor_output());
    assert_eq!(once.senvo_output(), twice.senvo_output());
    assert_eq!(once.is_degraded(), false);
    assert_eq!(twice.is_degraded(), false);
    assert_eq!(once.task_count(), twice.task_count());
    for i in 0..once.task_count() {
        assert_eq!(once.task_at(i), twice.task_at(i));
    }
    let coast = MotorSignal { forward: PhaseSignal::Low, backward: PhaseSignal::Low };
    assert_eq!(once.motor_output(), coast);
    assert_eq!(once.senvo_output(), ServoSignal { period_ms: 20, pulse_us: 1250 });
}

#[test]
fn test_brake_interrupt() {
    // Scenario: interrupting Ahead(0.4)/Turn(1400), duration 5 s, after
    // 2 s elapsed yields the fixed brake pulse and then the resumption
    // task Ahead(0.4)/Straight with the 3 s remainder.
    let mut manger = ControlManger::new(LaunchMode::Sleep);
    manger.push_task(ControlMes::new(Gear::Ahead(400), Diversion::Turn(1400), 5000, 0));
    manger.start_next(0).expect("a queued task must start");
    manger.load_stats(LaunchMode::Brake, 2000).unwrap();
    assert_eq!(manger.task_count(), 2);
    let brake = manger.task_at(0);
    assert_eq!(brake.mode, Gear::Brake);
    assert_eq!(brake.diversion, Diversion::Straight);
    assert_eq!(brake.duration, 10000);
    let resume = manger.task_at(1);
    assert_eq!(resume.mode, Gear::Ahead(400));
    assert_eq!(resume.diversion, Diversion::Straight);
    assert_eq!(resume.duration, 3000);
    assert_eq!(resume.date.reg, 2000);
    assert_eq!(resume.date.start, None);
}

#[test]
fn test_brake_keeps_pending_tail_order() {
    let mut manger = ControlManger::new(LaunchMode::Sleep);
    manger.push_task(ControlMes::new(Gear::Ahead(200), Diversion::Straight, 4000, 0));
    manger.push_task(ControlMes::new(Gear::Reverse(300), Diversion::Turn(900), 1000, 0));
    manger.start_next(0).unwrap();
    manger.load_stats(LaunchMode::Brake, 1000).unwrap();
    // The pending task stays ahead; brake and resumption go to the tail.
    assert_eq!(manger.task_count(), 3);
    assert_eq!(manger.task_at(0).mode, Gear::Reverse(300));
    assert_eq!(manger.task_at(1).mode, Gear::Brake);
    assert_eq!(manger.task_at(2).mode, Gear::Ahead(200));
    assert_eq!(manger.task_at(2).duration, 3000);
}

#[test]
fn test_brake_after_overrun_skips_resumption() {
    // The task overran before the interrupt arrived: the remainder clamps
    // to zero and the resumption task is skipped entirely.
    let mut manger = ControlManger::new(LaunchMode::Sleep);
    manger.push_task(ControlMes::new(Gear::Ahead(400), Diversion::Straight, 5000, 0));
    manger.start_next(0).unwrap();
    manger.load_stats(LaunchMode::Brake, 6000).unwrap();
    assert_eq!(manger.task_count(), 1);
    assert_eq!(manger.task_at(0).mode, Gear::Brake);
    assert_eq!(manger.task_at(0).duration, 10000);
}

#[test]
fn test_brake_with_clock_behind_start() {
    // A clock reading earlier than the recorded start counts as nothing
    // elapsed: the resumption carries the full duration.
    let mut manger = ControlManger::new(LaunchMode::Sleep);
    manger.push_task(ControlMes::new(Gear::Ahead(400), Diversion::Straight, 5000, 100));
    manger.start_next(100).unwrap();
    manger.load_stats(LaunchMode::Brake, 50).unwrap();
    assert_eq!(manger.task_count(), 2);
    assert_eq!(manger.task_at(1).duration, 5000);
}

#[test]
fn test_debug_sequence() {
    // Scenario: the debug load runs the four-task exercise sequence in
    // exact order — forward-turn, brake, reverse-turn, drift — and ends
    // idle.
    let mut manger = ControlManger::new(LaunchMode::Debug);
    manger.load_stats(LaunchMode::Debug, 0).unwrap();
    assert_eq!(manger.task_count(), 4);
    for i in 0..4 {
        assert_eq!(manger.task_at(i).duration, 10000);
    }
    let (plans, clock) = run_to_idle(&mut manger, 0);
    assert_eq!(clock, 40000);
    assert!(manger.is_idle());
    assert_eq!(plans.len(), 4);
    assert_eq!(
        plans[0],
        SignalPlan {
            motor: MotorSignal { forward: PhaseSignal::Pwm(100), backward: PhaseSignal::Low },
            servo: ServoSignal { period_ms: 20, pulse_us: 1250 },
        }
    );
    assert_eq!(
        plans[1],
        SignalPlan {
            motor: MotorSignal { forward: PhaseSignal::High, backward: PhaseSignal::High },
            servo: ServoSignal { period_ms: 20, pulse_us: 1250 },
        }
    );
    assert_eq!(
        plans[2],
        SignalPlan {
            motor: MotorSignal { forward: PhaseSignal::Low, backward: PhaseSignal::Pwm(100) },
            servo: ServoSignal { period_ms: 20, pulse_us: 1450 },
        }
    );
    assert_eq!(
        plans[3],
        SignalPlan {
            motor: MotorSignal { forward: PhaseSignal::Low, backward: PhaseSignal::Low },
            servo: ServoSignal { period_ms: 20, pulse_us: 1250 },
        }
    );
}

#[test]
fn test_fault_halts_run() {
    // Scenario: an actuator fault halts the run before any further task
    // executes; the remaining queue entries are untouched and the safe
    // coasting signal is commanded first.
    let mut manger = ControlManger::new(LaunchMode::Debug);
    manger.load_stats(LaunchMode::Debug, 0).unwrap();
    let (_task, _plan) = manger.start_next(0).unwrap();
    let safe = manger.report_fault();
    assert_eq!(safe.motor.forward, PhaseSignal::Low);
    assert_eq!(safe.motor.backward, PhaseSignal::Low);
    assert_eq!(safe.servo.pulse_us, 1250);
    assert!(manger.is_degraded());
    // No further task starts, and the queue is exactly as it was.
    assert!(manger.start_next(5).is_none());
    assert_eq!(manger.task_count(), 4);
    assert_eq!(manger.task_at(0).date.start, Some(0));
    assert_eq!(manger.task_at(1).date.start, None);
    assert_eq!(manger.motor_output().forward, PhaseSignal::Low);
}

#[test]
fn test_queue_invariant_violations() {
    let mut manger = ControlManger::new(LaunchMode::Sleep);
    // Finishing with nothing queued is a violation.
    assert_eq!(manger.finish_current(0), Err(ControlFault::QueueInvariantViolation));
    // Interrupting with nothing queued is a violation.
    assert_eq!(
        manger.load_stats(LaunchMode::Brake, 0),
        Err(ControlFault::QueueInvariantViolation)
    );
    // Interrupting a head that never started is a violation too.
    manger.push_task(ControlMes::new(Gear::Drift, Diversion::Straight, 100, 0));
    assert_eq!(
        manger.load_stats(LaunchMode::Brake, 0),
        Err(ControlFault::QueueInvariantViolation)
    );
    // Finishing a head that never started is a violation as well.
    assert_eq!(manger.finish_current(0), Err(ControlFault::QueueInvariantViolation));
    // The failed loads left the queue and mode untouched.
    assert_eq!(manger.task_count(), 1);
    assert_eq!(manger.current_mode(), LaunchMode::Sleep);
}

#[test]
fn test_task_timing_record() {
    let mut manger = ControlManger::new(LaunchMode::Sleep);
    manger.push_task(ControlMes::new(Gear::Ahead(500), Diversion::Straight, 250, 10));
    let (task, _plan) = manger.start_next(20).unwrap();
    assert_eq!(task.date.reg, 10);
    assert_eq!(task.date.start, Some(20));
    assert_eq!(task.date.fine, None);
    let done = manger.finish_current(270).unwrap();
    assert_eq!(done.date.reg, 10);
    assert_eq!(done.date.start, Some(20));
    assert_eq!(done.date.fine, Some(270));
    assert!(manger.is_idle());
}
