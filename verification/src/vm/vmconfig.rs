//! The order in which a new instance is configured: boot source, then root
//! drive, then network, then the host side of the network, stopping at the
//! first request that fails.

use vstd::prelude::*;

verus! {

/// The configuration step that is due next.
#[derive(Debug, Clone, Copy, PartialEq, Eq, Structural)]
pub enum InitStep {
    SetBootSource,
    SetRootfs,
    SetNetwork,
    /// Creating the host tap device of the VM's network.
    RegisterNetwork,
    Finished,
}

/// What is reported once a configuration step has been carried out.
#[derive(Debug, Clone, Copy, PartialEq, Eq, Structural)]
pub enum InitReport {
    BootSourceSet,
    RootfsSet,
    NetworkSet,
    NetworkRegistered,
    BootSourceFailed,
    RootfsFailed,
    NetworkFailed,
    RegistrationFailed,
}

/// The step after `step` once it has succeeded or failed, and what is
/// reported about it.
pub open spec fn init_transition(step: InitStep, succeeded: bool) -> (InitStep, InitReport)
    recommends
        step != InitStep::Finished,
{
    match step {
        InitStep::SetBootSource => if succeeded {
            (InitStep::SetRootfs, InitReport::BootSourceSet)
        } else {
            (InitStep::Finished, InitReport::BootSourceFailed)
        },
        InitStep::SetRootfs => if succeeded {
            (InitStep::SetNetwork, InitReport::RootfsSet)
        } else {
            (InitStep::Finished, InitReport::RootfsFailed)
        },
        InitStep::SetNetwork => if succeeded {
            (InitStep::RegisterNetwork, InitReport::NetworkSet)
        } else {
            (InitStep::Finished, InitReport::NetworkFailed)
        },
        _ => if succeeded {
            (InitStep::Finished, InitReport::NetworkRegistered)
        } else {
            (InitStep::Finished, InitReport::RegistrationFailed)
        },
    }
}

/// Advances the configuration of an instance by one step carried out.
pub fn initialize_step(step: InitStep, succeeded: bool) -> (r: (InitStep, InitReport))
    requires
        step != InitStep::Finished,
    ensures
        r == init_transition(step, succeeded),
{
    match step {
        InitStep::SetBootSource => if succeeded {
            (InitStep::SetRootfs, InitReport::BootSourceSet)
        } else {
            (InitStep::Finished, InitReport::BootSourceFailed)
        },
        InitStep::SetRootfs => if succeeded {
            (InitStep::SetNetwork, InitReport::RootfsSet)
        } else {
            (InitStep::Finished, InitReport::RootfsFailed)
        },
        InitStep::SetNetwork => if succeeded {
            (InitStep::RegisterNetwork, InitReport::NetworkSet)
        } else {
            (InitStep::Finished, InitReport::NetworkFailed)
        },
        _ => if succeeded {
            (InitStep::Finished, InitReport::NetworkRegistered)
        } else {
            (InitStep::Finished, InitReport::RegistrationFailed)
        },
    }
}

/// The steps carried out, from `step` on, when their outcomes are `outcomes`
/// (one per step carried out, in order), until the configuration is finished.
pub open spec fn requests_sent(step: InitStep, outcomes: Seq<bool>) -> Seq<InitStep>
    decreases outcomes.len(),
{
    if step == InitStep::Finished || outcomes.len() == 0 {
        Seq::empty()
    } else {
        seq![step] + requests_sent(init_transition(step, outcomes[0]).0, outcomes.drop_first())
    }
}

/// The text printed for a report; a failure's text is followed by the error.
pub open spec fn report_text(report: InitReport) -> Seq<char> {
    match report {
        InitReport::BootSourceSet => "Boot source set successfully"@,
        InitReport::RootfsSet => "Rootfs set successfully"@,
        InitReport::NetworkSet => "Network set successfully"@,
        InitReport::NetworkRegistered => "Host network registered"@,
        InitReport::BootSourceFailed => "Error setting boot source: "@,
        InitReport::RootfsFailed => "Error setting rootfs: "@,
        InitReport::NetworkFailed => "Error setting network: "@,
        InitReport::RegistrationFailed => "Error registering network: "@,
    }
}

/// The text printed for a report; a failure's text is followed by the error.
pub fn report_message(report: InitReport) -> (r: &'static str)
    ensures
        r@ == report_text(report),
{
    match report {
        InitReport::BootSourceSet => "Boot source set successfully",
        InitReport::RootfsSet => "Rootfs set successfully",
        InitReport::NetworkSet => "Network set successfully",
        InitReport::NetworkRegistered => "Host network registered",
        InitReport::BootSourceFailed => "Error setting boot source: ",
        InitReport::RootfsFailed => "Error setting rootfs: ",
        InitReport::NetworkFailed => "Error setting network: ",
        InitReport::RegistrationFailed => "Error registering network: ",
    }
}

/// The steps go in the order boot source, root drive, network, host network
/// registration: each only after all earlier ones succeeded. With every
/// outcome a success all four are carried out, and a failure stops the
/// sequence after the failed step.
pub proof fn lemma_initialization_order(outcomes: Seq<bool>)
    requires
        outcomes.len() >= 4,
    ensures
        ({
            let sent = requests_sent(InitStep::SetBootSource, outcomes);
            &&& sent.len() >= 1 && sent[0] == InitStep::SetBootSource
            &&& outcomes[0] ==> sent.len() >= 2 && sent[1] == InitStep::SetRootfs
            &&& outcomes[0] && outcomes[1] ==> sent.len() >= 3 && sent[2] == InitStep::SetNetwork
            &&& outcomes[0] && outcomes[1] && outcomes[2] ==> sent.len() == 4 && sent[3]
                == InitStep::RegisterNetwork
            &&& !outcomes[0] ==> sent.len() == 1
            &&& outcomes[0] && !outcomes[1] ==> sent.len() == 2
            &&& outcomes[0] && outcomes[1] && !outcomes[2] ==> sent.len() == 3
        }),
{
    let o1 = outcomes.drop_first();
    let o2 = o1.drop_first();
    let o3 = o2.drop_first();
    let o4 = o3.drop_first();
    reveal_with_fuel(requests_sent, 5);
    assert(o1[0] == outcomes[1]);
    assert(o2[0] == outcomes[2]);
    assert(o3[0] == outcomes[3]);
}

} // verus!
