//! What holds of account creation as a whole: of a creation fed any
//! answers, and of a creation driven to its end against a ledger.

use vstd::prelude::*;
use crate::deriver::{derived_address, CreationParams};
use crate::erc6551registry::{
    code_shows_account, ActionView, CreationView, LedgerEventView, OutcomeView, Stage, StepView,
};
use crate::error::ContractErrorView;
use crate::primitives::Address;

verus! {

impl CreationView {
    /// What feeding the ledger's answers `events` to the creation, one by
    /// one, leads to. Answers that come after the end are not looked at.
    pub open spec fn run(self, events: Seq<LedgerEventView>) -> StepView
        decreases events.len(),
    {
        if events.len() == 0 {
            StepView::Continue { creation: self }
        } else {
            match self.step(events.first()) {
                StepView::Continue { creation } => creation.run(events.drop_first()),
                StepView::Finished { outcome } => StepView::Finished { outcome },
            }
        }
    }

    /// The requests that fall due while `events` are fed to the creation:
    /// the pending one, then one after each answer that does not end the
    /// creation.
    pub open spec fn requests(self, events: Seq<LedgerEventView>) -> Seq<ActionView>
        decreases events.len(),
    {
        if events.len() == 0 {
            seq![self.pending()]
        } else {
            match self.step(events.first()) {
                StepView::Continue { creation } => seq![self.pending()] + creation.requests(
                    events.drop_first(),
                ),
                StepView::Finished { outcome } => seq![self.pending()],
            }
        }
    }
}

/// The number of requests that may still fall due from `stage` on.
pub open spec fn stage_rank(stage: Stage) -> nat {
    match stage {
        Stage::AwaitingCode => 3,
        Stage::AwaitingDeploy => 2,
        Stage::AwaitingInitialize => 1,
    }
}

/// A step never changes the address, the parameters or the
/// initialisation data of a creation, and never goes back to an earlier
/// stage.
pub proof fn lemma_step_keeps_creation(creation: CreationView, event: LedgerEventView)
    ensures
        creation.step(event) matches StepView::Continue { creation: next } ==> {
            &&& next.address == creation.address
            &&& next.params == creation.params
            &&& next.init_data == creation.init_data
            &&& if creation.answered_by(event) {
                stage_rank(next.stage) < stage_rank(creation.stage)
            } else {
                next == creation
            }
        },
        creation.step(event) is Finished ==> creation.answered_by(event),
{
}

/// A creation that succeeds returns the address that it began with.
pub proof fn lemma_run_returns_address(creation: CreationView, events: Seq<LedgerEventView>)
    ensures
        creation.run(events) matches StepView::Finished { outcome: Ok(address) } ==> address
            == creation.address,
        creation.run(events) matches StepView::Continue { creation: next } ==> next.address
            == creation.address,
    decreases events.len(),
{
    if events.len() > 0 {
        lemma_step_keeps_creation(creation, events.first());
        match creation.step(events.first()) {
            StepView::Continue { creation: next } => {
                lemma_run_returns_address(next, events.drop_first());
            },
            StepView::Finished { outcome } => {},
        }
    }
}

/// A creation that succeeds returns the address that the registry
/// derives for the parameters, whatever the ledger answered on the way
/// and whatever the initialisation data: creating an account and looking
/// its address up agree.
pub proof fn lemma_created_address_is_derived(
    registry: Address,
    params: CreationParams,
    init_data: Seq<u8>,
    events: Seq<LedgerEventView>,
)
    ensures
        CreationView::start(registry, params, init_data).run(events) matches StepView::Finished {
            outcome: Ok(address),
        } ==> address == derived_address(registry, params),
{
    lemma_run_returns_address(CreationView::start(registry, params, init_data), events);
}

/// Where the ledger holds code at the derived address, a creation ends on
/// the first answer: it returns that address and has asked for nothing
/// but the code. Nothing is deployed, nothing initialised.
pub proof fn lemma_existing_account_is_returned(
    registry: Address,
    params: CreationParams,
    init_data: Seq<u8>,
    code: Seq<u8>,
    later: Seq<LedgerEventView>,
)
    requires
        code_shows_account(code),
    ensures
        ({
            let creation = CreationView::start(registry, params, init_data);
            let events = seq![LedgerEventView::Code { code }] + later;
            let address = derived_address(registry, params);
            &&& creation.run(events) == StepView::Finished { outcome: Ok(address) }
            &&& creation.requests(events) == seq![ActionView::GetCode { address }]
        }),
{
    let events = seq![LedgerEventView::Code { code }] + later;
    assert(events.first() == LedgerEventView::Code { code });
}

/// The ledger, as far as a creation can tell: the code stored at each
/// address that has any.
pub ghost struct Ledger {
    pub code: Map<Seq<u8>, Seq<u8>>,
}

impl Ledger {
    /// The code stored at `address`; empty where there is none.
    pub open spec fn code_at(self, address: Seq<u8>) -> Seq<u8> {
        if self.code.dom().contains(address) {
            self.code[address]
        } else {
            Seq::empty()
        }
    }

    /// The ledger after `code` was stored at `address`.
    pub open spec fn deploy(self, address: Seq<u8>, code: Seq<u8>) -> Ledger {
        Ledger { code: self.code.insert(address, code) }
    }
}

/// How the ledger's calls turn out, as far as its stored code does not
/// decide it.
pub ghost struct CallOutcomes {
    /// Whether a deployment goes through.
    pub deploy_success: bool,
    /// The code that a deployment stores for the account.
    pub account_code: Seq<u8>,
    /// Whether an initialisation call succeeds.
    pub initialize_success: bool,
    /// What an initialisation call returns.
    pub initialize_result: Seq<u8>,
}

/// A creation driven to its end against a ledger.
pub ghost struct Driven {
    /// The ledger afterwards.
    pub ledger: Ledger,
    /// How the creation ended.
    pub outcome: OutcomeView,
    /// The requests that were made of the ledger, in order.
    pub requests: Seq<ActionView>,
}

impl CreationView {
    /// The ledger's answer to the pending request, and the ledger after
    /// it. A deployment that goes through stores the account's code at the
    /// address of the creation; nothing else changes the ledger.
    pub open spec fn answer(self, ledger: Ledger, calls: CallOutcomes) -> (LedgerEventView, Ledger) {
        match self.stage {
            Stage::AwaitingCode => (
                LedgerEventView::Code { code: ledger.code_at(self.address) },
                ledger,
            ),
            Stage::AwaitingDeploy => if calls.deploy_success {
                (
                    LedgerEventView::Deployed { success: true },
                    ledger.deploy(self.address, calls.account_code),
                )
            } else {
                (LedgerEventView::Deployed { success: false }, ledger)
            },
            Stage::AwaitingInitialize => (
                LedgerEventView::Initialized {
                    success: calls.initialize_success,
                    result: calls.initialize_result,
                },
                ledger,
            ),
        }
    }

    /// The creation driven to its end: each pending request is made of the
    /// ledger and its answer fed back, until the creation is over.
    pub open spec fn drive(self, ledger: Ledger, calls: CallOutcomes) -> Driven
        decreases stage_rank(self.stage),
    {
        let (event, ledger_after) = self.answer(ledger, calls);
        match self.step(event) {
            StepView::Finished { outcome } => Driven {
                ledger: ledger_after,
                outcome,
                requests: seq![self.pending()],
            },
            StepView::Continue { creation } => {
                let rest = creation.drive(ledger_after, calls);
                Driven {
                    ledger: rest.ledger,
                    outcome: rest.outcome,
                    requests: seq![self.pending()] + rest.requests,
                }
            },
        }
    }
}

/// Account creation told in one piece. The registry derives the address
/// and reads the code there. If there is code, the account exists and its
/// address is returned. Otherwise the account is deployed; a refused
/// deployment is `AccountCreationFailed` and leaves the ledger as it was.
/// A deployed account is initialised if there is data for that, and a
/// failed initialisation is `InitializationFailed` with what the call
/// returned, the account staying on the ledger.
pub open spec fn sequential_creation(
    registry: Address,
    params: CreationParams,
    init_data: Seq<u8>,
    ledger: Ledger,
    calls: CallOutcomes,
) -> Driven {
    let address = derived_address(registry, params);
    let get_code = ActionView::GetCode { address };
    let deploy = ActionView::Deploy { params, init_data };
    let initialize = ActionView::Initialize { address, init_data };
    let deployed = ledger.deploy(address, calls.account_code);
    if code_shows_account(ledger.code_at(address)) {
        Driven { ledger, outcome: Ok(address), requests: seq![get_code] }
    } else if !calls.deploy_success {
        Driven {
            ledger,
            outcome: Err(ContractErrorView::AccountCreationFailed),
            requests: seq![get_code, deploy],
        }
    } else if init_data.len() == 0 {
        Driven { ledger: deployed, outcome: Ok(address), requests: seq![get_code, deploy] }
    } else if calls.initialize_success {
        Driven {
            ledger: deployed,
            outcome: Ok(address),
            requests: seq![get_code, deploy, initialize],
        }
    } else {
        Driven {
            ledger: deployed,
            outcome: Err(
                ContractErrorView::InitializationFailed { detail: calls.initialize_result },
            ),
            requests: seq![get_code, deploy, initialize],
        }
    }
}

/// Driving a creation step by step against a ledger is account creation
/// as `sequential_creation` tells it: the same outcome, the same requests
/// in the same order, the same ledger afterwards.
pub proof fn lemma_drive_is_sequential_creation(
    registry: Address,
    params: CreationParams,
    init_data: Seq<u8>,
    ledger: Ledger,
    calls: CallOutcomes,
)
    ensures
        CreationView::start(registry, params, init_data).drive(ledger, calls)
            == sequential_creation(registry, params, init_data, ledger, calls),
{
    reveal_with_fuel(CreationView::drive, 4);
    let driven = CreationView::start(registry, params, init_data).drive(ledger, calls);
    let told = sequential_creation(registry, params, init_data, ledger, calls);
    assert(driven.requests =~= told.requests);
}

/// Creation is idempotent. When a creation has succeeded, on a ledger
/// whose deployments store code that is not empty, a second creation
/// with the same parameters on the ledger as the first left it returns
/// the same address, asks the ledger for the code at that address and
/// for nothing else, and leaves the ledger as it was.
pub proof fn lemma_creation_is_idempotent(
    registry: Address,
    params: CreationParams,
    ledger: Ledger,
    first_init_data: Seq<u8>,
    first_calls: CallOutcomes,
    second_init_data: Seq<u8>,
    second_calls: CallOutcomes,
)
    requires
        code_shows_account(first_calls.account_code),
        CreationView::start(registry, params, first_init_data).drive(ledger, first_calls).outcome
            is Ok,
    ensures
        ({
            let first = CreationView::start(registry, params, first_init_data).drive(
                ledger,
                first_calls,
            );
            let second = CreationView::start(registry, params, second_init_data).drive(
                first.ledger,
                second_calls,
            );
            let address = derived_address(registry, params);
            &&& first.outcome == Ok::<Seq<u8>, ContractErrorView>(address)
            &&& second.outcome == first.outcome
            &&& second.requests == seq![ActionView::GetCode { address }]
            &&& second.ledger == first.ledger
        }),
{
    lemma_drive_is_sequential_creation(registry, params, first_init_data, ledger, first_calls);
    let first = sequential_creation(registry, params, first_init_data, ledger, first_calls);
    lemma_drive_is_sequential_creation(
        registry,
        params,
        second_init_data,
        first.ledger,
        second_calls,
    );
}

} // verus!
