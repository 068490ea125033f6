use vm_core::virtualization::hvp::gic_snapshot::GicStateReads;
use vm_core::virtualization::hvp::gic_snapshot::IrqChipError;
use vm_core::virtualization::hvp::vcpu_snapshot::build_vcpu_snapshot;
use vm_core::virtualization::hvp::vm::GicPlacement;
use vm_core::virtualization::hvp::vm::GicRequirements;
use vm_core::virtualization::hvp::vm::HvpGicV3;
use vm_core::virtualization::hvp::vcpu_snapshot::VcpuRegisterReads;
use vm_core::virtualization::vcpu_loop::vcpu_loop_start;
use vm_core::virtualization::vcpu_loop::vcpu_loop_step;
use vm_core::virtualization::vcpu_loop::CommandPoll;
use vm_core::virtualization::vcpu_loop::ExitOutcome;
use vm_core::virtualization::vcpu_loop::VcpuLoopAction;
use vm_core::virtualization::vcpu_loop::VcpuLoopEvent;
use vm_core::virtualization::vcpu_loop::VcpuLoopState;

const STOPPED: VcpuLoopState = VcpuLoopState { running: false };
const RUNNING: VcpuLoopState = VcpuLoopState { running: true };

#[test]
fn a_new_vcpu_waits_for_a_command() {
    let (state, action) = vcpu_loop_start();
    assert_eq!((state, action), (STOPPED, VcpuLoopAction::Poll));
    let r = vcpu_loop_step(state, VcpuLoopEvent::Polled(CommandPoll::Empty));
    assert_eq!(r, (STOPPED, VcpuLoopAction::Wait));
}

#[test]
fn commands_come_before_runs_and_resume_starts_the_vcpu() {
    let r = vcpu_loop_step(RUNNING, VcpuLoopEvent::Polled(CommandPoll::Pending { resume: false }));
    assert_eq!(r, (RUNNING, VcpuLoopAction::HandleCommand));
    let r = vcpu_loop_step(STOPPED, VcpuLoopEvent::Waited(CommandPoll::Pending { resume: true }));
    assert_eq!(r, (RUNNING, VcpuLoopAction::HandleCommand));
    assert_eq!(vcpu_loop_step(RUNNING, VcpuLoopEvent::Done), (RUNNING, VcpuLoopAction::Poll));
    assert_eq!(
        vcpu_loop_step(RUNNING, VcpuLoopEvent::Polled(CommandPoll::Empty)),
        (RUNNING, VcpuLoopAction::Run)
    );
}

#[test]
fn exits_decide_what_follows() {
    assert_eq!(
        vcpu_loop_step(RUNNING, VcpuLoopEvent::Ran(ExitOutcome::Canceled)),
        (STOPPED, VcpuLoopAction::Poll)
    );
    assert_eq!(
        vcpu_loop_step(RUNNING, VcpuLoopEvent::Ran(ExitOutcome::Continue)),
        (RUNNING, VcpuLoopAction::Poll)
    );
    assert_eq!(
        vcpu_loop_step(RUNNING, VcpuLoopEvent::Ran(ExitOutcome::NextInstruction)),
        (RUNNING, VcpuLoopAction::ReadPc)
    );
    assert_eq!(
        vcpu_loop_step(RUNNING, VcpuLoopEvent::PcRead(0x4000_1000)),
        (RUNNING, VcpuLoopAction::WritePc(0x4000_1004))
    );
}

#[test]
fn a_closed_queue_ends_the_thread() {
    assert_eq!(
        vcpu_loop_step(RUNNING, VcpuLoopEvent::Polled(CommandPoll::Disconnected)),
        (RUNNING, VcpuLoopAction::Stop)
    );
    assert_eq!(
        vcpu_loop_step(STOPPED, VcpuLoopEvent::Waited(CommandPoll::Disconnected)),
        (STOPPED, VcpuLoopAction::Stop)
    );
}

fn reads(masked: Result<bool, i32>, offset: Result<u64, i32>) -> VcpuRegisterReads {
    VcpuRegisterReads {
        gic_redistributor: vec![(0x8, Ok(1)), (0xffe8, Err(-3))],
        gic_icc: vec![],
        gic_ich: vec![(1, Err(-1))],
        gic_icv: vec![(2, Ok(7))],
        core: vec![(0, Ok(10)), (1, Ok(11)), (2, Err(-2)), (3, Ok(13))],
        sys: vec![(0xc208, Ok(0x1000))],
        fp: vec![(0, Ok(u128::MAX)), (1, Err(-4))],
        vtimer_is_masked: masked,
        vtimer_offset: offset,
    }
}

#[test]
fn snapshot_keeps_the_reads_that_succeeded() {
    let s = build_vcpu_snapshot(&reads(Ok(true), Ok(99))).unwrap();
    assert_eq!(s.gic_redistributor, vec![(0x8, 1)]);
    assert_eq!(s.gic_icc, vec![]);
    assert_eq!(s.gic_ich, vec![]);
    assert_eq!(s.gic_icv, vec![(2, 7)]);
    assert_eq!(s.core, vec![(0, 10), (1, 11), (3, 13)]);
    assert_eq!(s.sys, vec![(0xc208, 0x1000)]);
    assert_eq!(s.fp, vec![(0, u128::MAX)]);
    assert!(s.vtimer_is_masked);
    assert_eq!(s.vtimer_offset, 99);
}

#[test]
fn snapshot_fails_on_the_virtual_timer() {
    assert_eq!(build_vcpu_snapshot(&reads(Err(-5), Err(-6))).err(), Some(-5));
    assert_eq!(build_vcpu_snapshot(&reads(Ok(false), Err(-6))).err(), Some(-6));
}

fn gic_reads(distributor_fails: bool, state: Result<Vec<u8>, i32>) -> GicStateReads {
    GicStateReads {
        distributor: vec![(0x0, Ok(1)), (0x4, if distributor_fails { Err(-1) } else { Ok(2) })],
        msi: vec![(0x8, Ok(3)), (0x40, Ok(4))],
        state,
    }
}

#[test]
fn gic_snapshot_keeps_everything_or_fails() {
    let gic = HvpGicV3::place(
        &GicPlacement { distributor_base: 0, redistributor_base: 0x1_0000, msi_base: 0x2_0000, ram_base: 0x3_0000 },
        &GicRequirements {
            distributor_base_alignment: 0x1_0000,
            redistributor_base_alignment: 0x1_0000,
            msi_region_base_alignment: 0x1_0000,
            distributor_size: 0x1_0000,
            redistributor_region_size: 0x1_0000,
            msi_region_size: 0x1_0000,
        },
    )
    .unwrap();
    let snap = gic.build_snapshot(gic_reads(false, Ok(vec![9, 8, 7]))).unwrap();
    assert_eq!(snap.distributor, vec![(0x0, 1), (0x4, 2)]);
    assert_eq!(snap.msi, vec![(0x8, 3), (0x40, 4)]);
    assert_eq!(snap.state, vec![9, 8, 7]);
    assert_eq!(gic.build_snapshot(gic_reads(true, Ok(vec![]))).err(), Some(IrqChipError::SaveSnapshot));
    assert_eq!(gic.build_snapshot(gic_reads(false, Err(-2))).err(), Some(IrqChipError::SaveSnapshot));
}

#[test]
fn a_run_starts_only_after_a_resume_is_handled() {
    let (mut state, mut action) = vcpu_loop_start();
    let events = [
        VcpuLoopEvent::Polled(CommandPoll::Empty),
        VcpuLoopEvent::Waited(CommandPoll::Pending { resume: false }),
        VcpuLoopEvent::Done,
        VcpuLoopEvent::Polled(CommandPoll::Empty),
        VcpuLoopEvent::Waited(CommandPoll::Pending { resume: true }),
        VcpuLoopEvent::Done,
        VcpuLoopEvent::Polled(CommandPoll::Empty),
    ];
    let mut actions = vec![action];
    for event in events {
        (state, action) = vcpu_loop_step(state, event);
        actions.push(action);
    }
    assert_eq!(
        actions,
        vec![
            VcpuLoopAction::Poll,
            VcpuLoopAction::Wait,
            VcpuLoopAction::HandleCommand,
            VcpuLoopAction::Poll,
            VcpuLoopAction::Wait,
            VcpuLoopAction::HandleCommand,
            VcpuLoopAction::Poll,
            VcpuLoopAction::Run,
        ]
    );
}
