//! RPC-over-RDMA module init and cleanup: three steps brought up in order,
//! and on failure the ones already up torn down in reverse order.
use vstd::prelude::*;

verus! {

/// The module's metadata.
#[derive(Clone, Copy, Debug, PartialEq, Eq)]
pub struct ModuleMetadata {
    pub author: &'static str,
    pub description: &'static str,
    pub license: &'static str,
    pub aliases: [&'static str; 3],
}

/// Which steps are up.
#[derive(Clone, Copy, Debug, Default, PartialEq, Eq, Structural)]
pub struct RpcRdmaState {
    pub ib_client_registered: bool,
    pub svc_rdma_initialized: bool,
    pub xprt_rdma_initialized: bool,
}

/// What each init step returns (0 for success).
#[derive(Clone, Copy, Debug, PartialEq, Eq)]
pub struct RpcRdmaInitPlan {
    pub ib_client_register_rc: i32,
    pub svc_rdma_init_rc: i32,
    pub xprt_rdma_init_rc: i32,
}

impl RpcRdmaInitPlan {
    /// Every step succeeds.
    pub fn success() -> (r: Self)
        ensures
            r == (RpcRdmaInitPlan { ib_client_register_rc: 0, svc_rdma_init_rc: 0, xprt_rdma_init_rc: 0 }),
    {
        RpcRdmaInitPlan { ib_client_register_rc: 0, svc_rdma_init_rc: 0, xprt_rdma_init_rc: 0 }
    }
}

/// A step of init or cleanup.
#[derive(Clone, Copy, Debug, PartialEq, Eq, Structural)]
pub enum RpcRdmaStep {
    IbClientRegister,
    SvcRdmaInit,
    XprtRdmaInit,
    XprtRdmaCleanup,
    SvcRdmaCleanup,
    IbClientUnregister,
}

/// The module's author, description, license and aliases.
pub fn rpc_rdma_metadata() -> (r: ModuleMetadata)
    ensures
        r.author == "Open Grid Computing and Network Appliance, Inc.",
        r.description == "RPC/RDMA Transport",
        r.license == "Dual BSD/GPL",
        r.aliases[0] == "svcrdma" && r.aliases[1] == "xprtrdma" && r.aliases[2] == "rpcrdma6",
{
    ModuleMetadata {
        author: "Open Grid Computing and Network Appliance, Inc.",
        description: "RPC/RDMA Transport",
        license: "Dual BSD/GPL",
        aliases: ["svcrdma", "xprtrdma", "rpcrdma6"],
    }
}

/// The steps init takes under `plan`, the state it leaves, and its result.
pub open spec fn rpc_rdma_init_spec(state: RpcRdmaState, plan: RpcRdmaInitPlan) -> (Seq<RpcRdmaStep>, RpcRdmaState, Result<(), i32>) {
    if plan.ib_client_register_rc != 0 {
        (seq![RpcRdmaStep::IbClientRegister], state, Err(plan.ib_client_register_rc))
    } else if plan.svc_rdma_init_rc != 0 {
        (
            seq![RpcRdmaStep::IbClientRegister, RpcRdmaStep::SvcRdmaInit, RpcRdmaStep::IbClientUnregister],
            RpcRdmaState { ib_client_registered: false, ..state },
            Err(plan.svc_rdma_init_rc),
        )
    } else if plan.xprt_rdma_init_rc != 0 {
        (
            seq![
                RpcRdmaStep::IbClientRegister,
                RpcRdmaStep::SvcRdmaInit,
                RpcRdmaStep::XprtRdmaInit,
                RpcRdmaStep::SvcRdmaCleanup,
                RpcRdmaStep::IbClientUnregister,
            ],
            RpcRdmaState { ib_client_registered: false, svc_rdma_initialized: false, ..state },
            Err(plan.xprt_rdma_init_rc),
        )
    } else {
        (
            seq![RpcRdmaStep::IbClientRegister, RpcRdmaStep::SvcRdmaInit, RpcRdmaStep::XprtRdmaInit],
            RpcRdmaState { ib_client_registered: true, svc_rdma_initialized: true, xprt_rdma_initialized: true },
            Ok(()),
        )
    }
}

/// Brings the module up, logging each step; see `rpc_rdma_init_spec`.
pub fn rpc_rdma_init(state: &mut RpcRdmaState, plan: RpcRdmaInitPlan, log: &mut Vec<RpcRdmaStep>) -> (r: Result<(), i32>)
    ensures
        ({
            let (steps, st, res) = rpc_rdma_init_spec(*old(state), plan);
            &&& final(log)@ == old(log)@ + steps
            &&& *final(state) == st
            &&& r == res
        }),
{
    let ghost log0 = log@;
    log.push(RpcRdmaStep::IbClientRegister);
    if plan.ib_client_register_rc != 0 {
        assert(log@ =~= log0 + seq![RpcRdmaStep::IbClientRegister]);
        return Err(plan.ib_client_register_rc);
    }
    state.ib_client_registered = true;
    log.push(RpcRdmaStep::SvcRdmaInit);
    if plan.svc_rdma_init_rc != 0 {
        state.ib_client_registered = false;
        log.push(RpcRdmaStep::IbClientUnregister);
        assert(log@ =~= log0 + seq![RpcRdmaStep::IbClientRegister, RpcRdmaStep::SvcRdmaInit, RpcRdmaStep::IbClientUnregister]);
        return Err(plan.svc_rdma_init_rc);
    }
    state.svc_rdma_initialized = true;
    log.push(RpcRdmaStep::XprtRdmaInit);
    if plan.xprt_rdma_init_rc != 0 {
        state.svc_rdma_initialized = false;
        log.push(RpcRdmaStep::SvcRdmaCleanup);
        state.ib_client_registered = false;
        log.push(RpcRdmaStep::IbClientUnregister);
        assert(log@ =~= log0 + seq![
            RpcRdmaStep::IbClientRegister,
            RpcRdmaStep::SvcRdmaInit,
            RpcRdmaStep::XprtRdmaInit,
            RpcRdmaStep::SvcRdmaCleanup,
            RpcRdmaStep::IbClientUnregister,
        ]);
        return Err(plan.xprt_rdma_init_rc);
    }
    state.xprt_rdma_initialized = true;
    assert(log@ =~= log0 + seq![RpcRdmaStep::IbClientRegister, RpcRdmaStep::SvcRdmaInit, RpcRdmaStep::XprtRdmaInit]);
    Ok(())
}

/// The cleanup steps for what is up, in reverse order of init.
pub open spec fn rpc_rdma_cleanup_steps(state: RpcRdmaState) -> Seq<RpcRdmaStep> {
    (if state.xprt_rdma_initialized { seq![RpcRdmaStep::XprtRdmaCleanup] } else { Seq::empty() })
        + (if state.svc_rdma_initialized { seq![RpcRdmaStep::SvcRdmaCleanup] } else { Seq::empty() })
        + (if state.ib_client_registered { seq![RpcRdmaStep::IbClientUnregister] } else { Seq::empty() })
}

/// Tears down whatever is up, newest first, logging each step.
pub fn rpc_rdma_cleanup(state: &mut RpcRdmaState, log: &mut Vec<RpcRdmaStep>)
    ensures
        *final(state) == (RpcRdmaState { ib_client_registered: false, svc_rdma_initialized: false, xprt_rdma_initialized: false }),
        final(log)@ == old(log)@ + rpc_rdma_cleanup_steps(*old(state)),
{
    let ghost log0 = log@;
    let ghost st0 = *state;
    if state.xprt_rdma_initialized {
        state.xprt_rdma_initialized = false;
        log.push(RpcRdmaStep::XprtRdmaCleanup);
    }
    if state.svc_rdma_initialized {
        state.svc_rdma_initialized = false;
        log.push(RpcRdmaStep::SvcRdmaCleanup);
    }
    if state.ib_client_registered {
        state.ib_client_registered = false;
        log.push(RpcRdmaStep::IbClientUnregister);
    }
    assert(log@ =~= log0 + rpc_rdma_cleanup_steps(st0));
}

/// A failed init leaves nothing up that was not up before, and a
/// successful init followed by cleanup leaves nothing up, undoing the
/// steps in reverse order.
pub proof fn lemma_init_rollback(state: RpcRdmaState, plan: RpcRdmaInitPlan)
    requires
        state == (RpcRdmaState { ib_client_registered: false, svc_rdma_initialized: false, xprt_rdma_initialized: false }),
    ensures
        rpc_rdma_init_spec(state, plan).2 is Err ==> rpc_rdma_init_spec(state, plan).1 == state,
        rpc_rdma_init_spec(state, plan).2 is Ok ==> rpc_rdma_cleanup_steps(rpc_rdma_init_spec(state, plan).1) == seq![
            RpcRdmaStep::XprtRdmaCleanup,
            RpcRdmaStep::SvcRdmaCleanup,
            RpcRdmaStep::IbClientUnregister,
        ],
{
    let st = rpc_rdma_init_spec(state, plan).1;
    if rpc_rdma_init_spec(state, plan).2 is Ok {
        assert(rpc_rdma_cleanup_steps(st) =~= seq![
            RpcRdmaStep::XprtRdmaCleanup,
            RpcRdmaStep::SvcRdmaCleanup,
            RpcRdmaStep::IbClientUnregister,
        ]);
    }
}

} // verus!
