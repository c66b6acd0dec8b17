use vstd::prelude::*;

use crate::text::{decimal, push_decimal};
use crate::types::{
    CanisterSettings, CreateCanisterArgs, CreateResult, Principal, TokenStoreWASMArgs,
    UpdateSettingsArgs,
};

verus! {

/// Where a remote call goes: the platform's management service, or a canister.
#[derive(Debug)]
pub enum Target {
    Management,
    Canister(Principal),
}

/// The remote operations that provisioning uses.
#[derive(Debug, Clone, Copy, PartialEq, Eq, Structural)]
pub enum Method {
    CreateCanister,
    InstallCode,
    UpdateSettings,
    StoreWalletWasm,
}

pub open spec fn method_name(m: Method) -> Seq<char> {
    match m {
        Method::CreateCanister => "create_canister"@,
        Method::InstallCode => "install_code"@,
        Method::UpdateSettings => "update_settings"@,
        Method::StoreWalletWasm => "wallet_store_wallet_wasm"@,
    }
}

impl Method {
    /// The name under which the remote side offers this operation.
    pub fn name(&self) -> (r: &'static str)
        ensures
            r@ == method_name(*self),
    {
        proof {
            reveal_strlit("create_canister");
            reveal_strlit("install_code");
            reveal_strlit("update_settings");
            reveal_strlit("wallet_store_wallet_wasm");
        }
        match self {
            Method::CreateCanister => "create_canister",
            Method::InstallCode => "install_code",
            Method::UpdateSettings => "update_settings",
            Method::StoreWalletWasm => "wallet_store_wallet_wasm",
        }
    }
}

/// How code is put into a canister.
#[derive(Debug, Clone, Copy, PartialEq, Eq, Structural)]
pub enum InstallMode {
    Install,
    Reinstall,
    Upgrade,
}

pub open spec fn install_mode_name(m: InstallMode) -> Seq<char> {
    match m {
        InstallMode::Install => "install"@,
        InstallMode::Reinstall => "reinstall"@,
        InstallMode::Upgrade => "upgrade"@,
    }
}

impl InstallMode {
    /// The name of this mode on the wire.
    pub fn name(&self) -> (r: &'static str)
        ensures
            r@ == install_mode_name(*self),
    {
        proof {
            reveal_strlit("install");
            reveal_strlit("reinstall");
            reveal_strlit("upgrade");
        }
        match self {
            InstallMode::Install => "install",
            InstallMode::Reinstall => "reinstall",
            InstallMode::Upgrade => "upgrade",
        }
    }
}

/// The argument of the install-code operation.
#[derive(Debug)]
pub struct CanisterInstall {
    pub mode: InstallMode,
    pub canister_id: Principal,
    pub wasm_module: Vec<u8>,
    pub arg: Vec<u8>,
}

/// What a remote call carries.
#[derive(Debug)]
pub enum Payload {
    CreateCanister { settings: Option<CanisterSettings> },
    InstallCode(CanisterInstall),
    UpdateSettings(UpdateSettingsArgs),
    StoreWalletWasm(TokenStoreWASMArgs),
}

/// One remote call: its target, operation and payload, and the cycles paid
/// with it (apart from the payload).
#[derive(Debug)]
pub struct RemoteCall {
    pub target: Target,
    pub method: Method,
    pub payload: Payload,
    pub payment: u64,
}

/// A remote call that failed: the platform's rejection code and its message.
#[derive(Debug)]
pub struct CallRejection {
    pub code: u8,
    pub message: String,
}

/// The text reported for a failed remote call.
pub open spec fn error_text(code: u8, message: Seq<char>) -> Seq<char> {
    "An error happened during the call: "@ + decimal(code as nat) + ": "@ + message
}

/// The error text for a rejected call.
pub fn call_error_message(rejection: &CallRejection) -> (r: String)
    ensures
        r@ == error_text(rejection.code, rejection.message@),
{
    let mut s = String::from_str("An error happened during the call: ");
    push_decimal(&mut s, rejection.code as u128);
    s.append(": ");
    s.append(rejection.message.as_str());
    proof {
        reveal_strlit("An error happened during the call: ");
        reveal_strlit(": ");
        assert(s@ =~= error_text(rejection.code, rejection.message@));
    }
    s
}

/// Whether `r` is what a reply turns into: a success passed on as it is, or a
/// rejection reported as its error text.
pub open spec fn outcome_of<T>(reply: Result<T, CallRejection>, r: Result<T, String>) -> bool {
    match reply {
        Ok(v) => r == Ok::<T, String>(v),
        Err(e) => r is Err && r->Err_0@ == error_text(e.code, e.message@),
    }
}

/// Turns the reply of a remote call into its outcome.
pub fn reply_outcome<T>(reply: Result<T, CallRejection>) -> (r: Result<T, String>)
    ensures
        outcome_of(reply, r),
{
    match reply {
        Ok(v) => Ok(v),
        Err(e) => Err(call_error_message(&e)),
    }
}

/// The call that creates a canister: the settings are the whole payload, and
/// the cycles are paid with the call.
pub open spec fn create_call(args: CreateCanisterArgs) -> RemoteCall {
    RemoteCall {
        target: Target::Management,
        method: Method::CreateCanister,
        payload: Payload::CreateCanister { settings: Some(args.settings) },
        payment: args.cycles,
    }
}

/// The call to make to create a canister.
pub fn create_canister_request(args: CreateCanisterArgs) -> (r: RemoteCall)
    ensures
        r == create_call(args),
{
    RemoteCall {
        target: Target::Management,
        method: Method::CreateCanister,
        payload: Payload::CreateCanister { settings: Some(args.settings) },
        payment: args.cycles,
    }
}

/// The outcome of creating a canister, from the reply to its call.
pub fn create_canister_outcome(reply: Result<CreateResult, CallRejection>) -> (r: Result<
    CreateResult,
    String,
>)
    ensures
        outcome_of(reply, r),
{
    reply_outcome(reply)
}

/// The call that changes the settings of a canister.
pub open spec fn update_settings_call(args: UpdateSettingsArgs) -> RemoteCall {
    RemoteCall {
        target: Target::Management,
        method: Method::UpdateSettings,
        payload: Payload::UpdateSettings(args),
        payment: 0,
    }
}

/// The call to make to change the settings of a canister.
pub fn update_settings_request(args: UpdateSettingsArgs) -> (r: RemoteCall)
    ensures
        r == update_settings_call(args),
{
    RemoteCall {
        target: Target::Management,
        method: Method::UpdateSettings,
        payload: Payload::UpdateSettings(args),
        payment: 0,
    }
}

/// The outcome of changing the settings of a canister, from the reply to its call.
pub fn update_settings_outcome(reply: Result<(), CallRejection>) -> (r: Result<(), String>)
    ensures
        outcome_of(reply, r),
{
    reply_outcome(reply)
}

/// Where an installation stands: waiting for the reply to the install-code
/// call (holding what the persist call needs), or for the reply to the
/// persist call.
#[derive(Debug)]
pub enum InstallState {
    AwaitInstall { canister_id: Principal, wasm_module: Vec<u8> },
    AwaitPersist,
}

/// What an installation does next: make a call, or finish with an outcome.
#[derive(Debug)]
pub enum InstallAction {
    Call(RemoteCall),
    Finish(Result<(), String>),
}

/// The module bytes that a call carries, for the calls that carry one.
pub open spec fn module_bytes(c: RemoteCall) -> Option<Seq<u8>> {
    match c.payload {
        Payload::InstallCode(i) => Some(i.wasm_module@),
        Payload::StoreWalletWasm(t) => Some(t.wasm_module@),
        _ => None,
    }
}

/// Whether `c` installs afresh the module `wasm` with the argument `arg` into
/// the canister `canister_id`.
pub open spec fn is_install_call(
    c: RemoteCall,
    canister_id: Seq<u8>,
    wasm: Seq<u8>,
    arg: Seq<u8>,
) -> bool {
    &&& c.target is Management
    &&& c.method == Method::InstallCode
    &&& c.payment == 0
    &&& match c.payload {
        Payload::InstallCode(i) => {
            &&& i.mode == InstallMode::Install
            &&& i.canister_id@ == canister_id
            &&& i.wasm_module@ == wasm
            &&& i.arg@ == arg
        },
        _ => false,
    }
}

/// The call that asks the canister `canister_id` to keep the module `wasm`.
pub open spec fn persist_call(canister_id: Principal, wasm: Vec<u8>) -> RemoteCall {
    RemoteCall {
        target: Target::Canister(canister_id),
        method: Method::StoreWalletWasm,
        payload: Payload::StoreWalletWasm(TokenStoreWASMArgs { wasm_module: wasm }),
        payment: 0,
    }
}

/// Whether an installation of `wasm` with `arg` into `canister_id` begins in
/// the state `s` with the call `c`.
pub open spec fn install_started(
    canister_id: Seq<u8>,
    wasm: Seq<u8>,
    arg: Seq<u8>,
    s: InstallState,
    c: RemoteCall,
) -> bool {
    &&& is_install_call(c, canister_id, wasm, arg)
    &&& match s {
        InstallState::AwaitInstall { canister_id: id, wasm_module } => id@ == canister_id
            && wasm_module@ == wasm,
        InstallState::AwaitPersist => false,
    }
}

/// Whether an installation in the state `s` that gets `reply` goes on to the
/// state `next` (none once it is over) and takes the action `a`.
pub open spec fn install_stepped(
    s: InstallState,
    reply: Result<(), CallRejection>,
    next: Option<InstallState>,
    a: InstallAction,
) -> bool {
    match reply {
        Ok(_) => match s {
            InstallState::AwaitInstall { canister_id, wasm_module } => {
                &&& next == Some(InstallState::AwaitPersist)
                &&& a == InstallAction::Call(persist_call(canister_id, wasm_module))
            },
            InstallState::AwaitPersist => {
                &&& next is None
                &&& a == InstallAction::Finish(Ok(()))
            },
        },
        Err(e) => {
            &&& next is None
            &&& a is Finish
            &&& a->Finish_0 is Err
            &&& a->Finish_0->Err_0@ == error_text(e.code, e.message@)
        },
    }
}

/// Begins the installation of `wasm_module` into `canister_id`, with `args`
/// handed to the module's initialisation: the install-code call to make, and
/// the state that waits for its reply.
pub fn install_start(canister_id: &Principal, wasm_module: Vec<u8>, args: Vec<u8>) -> (r: (
    InstallState,
    RemoteCall,
))
    ensures
        install_started(canister_id@, wasm_module@, args@, r.0, r.1),
{
    let call = RemoteCall {
        target: Target::Management,
        method: Method::InstallCode,
        payload: Payload::InstallCode(
            CanisterInstall {
                mode: InstallMode::Install,
                canister_id: canister_id.duplicate(),
                wasm_module: wasm_module.clone(),
                arg: args,
            },
        ),
        payment: 0,
    };
    (InstallState::AwaitInstall { canister_id: canister_id.duplicate(), wasm_module }, call)
}

/// Takes the reply to the last call of an installation. After a successful
/// install-code call the canister is asked to keep the same module; any
/// rejection ends the installation at once with its error text.
pub fn install_next(state: InstallState, reply: Result<(), CallRejection>) -> (r: (
    Option<InstallState>,
    InstallAction,
))
    ensures
        install_stepped(state, reply, r.0, r.1),
{
    match reply {
        Err(e) => (None, InstallAction::Finish(Err(call_error_message(&e)))),
        Ok(_) => match state {
            InstallState::AwaitInstall { canister_id, wasm_module } => {
                let call = RemoteCall {
                    target: Target::Canister(canister_id),
                    method: Method::StoreWalletWasm,
                    payload: Payload::StoreWalletWasm(TokenStoreWASMArgs { wasm_module }),
                    payment: 0,
                };
                (Some(InstallState::AwaitPersist), InstallAction::Call(call))
            },
            InstallState::AwaitPersist => (None, InstallAction::Finish(Ok(()))),
        },
    }
}

/// Creating a canister is a single call to the management service that pays
/// exactly the cycles asked for, beside a payload that holds the settings
/// alone; a successful reply hands back the new canister's identity unchanged.
pub proof fn lemma_create_pays_once(
    args: CreateCanisterArgs,
    created: CreateResult,
    r: Result<CreateResult, String>,
)
    requires
        outcome_of(Ok::<CreateResult, CallRejection>(created), r),
    ensures
        create_call(args).target is Management,
        create_call(args).method == Method::CreateCanister,
        create_call(args).payment == args.cycles,
        create_call(args).payload == (Payload::CreateCanister { settings: Some(args.settings) }),
        r == Ok::<CreateResult, String>(created),
{
}

/// When the install-code call fails, the installation ends there with that
/// call's error: the persist call is never made.
pub proof fn lemma_install_failure_skips_persist(
    canister_id: Seq<u8>,
    wasm: Seq<u8>,
    arg: Seq<u8>,
    s: InstallState,
    c: RemoteCall,
    e: CallRejection,
    next: Option<InstallState>,
    a: InstallAction,
)
    requires
        install_started(canister_id, wasm, arg, s, c),
        install_stepped(s, Err(e), next, a),
    ensures
        next is None,
        !(a is Call),
        a->Finish_0 is Err,
        a->Finish_0->Err_0@ == error_text(e.code, e.message@),
{
}

/// Every rejection with code `C` and message `M` is reported as the text
/// `An error happened during the call: C: M`, with `C` in decimal.
pub proof fn lemma_rejection_text<T>(e: CallRejection, r: Result<T, String>)
    requires
        outcome_of(Err::<T, CallRejection>(e), r),
    ensures
        r->Err_0@ == "An error happened during the call: "@ + decimal(e.code as nat) + ": "@
            + e.message@,
{
}

/// Changing settings can be repeated: the call carries the arguments as they
/// are and pays nothing, and every successful reply gives the same outcome, a
/// success with no value.
pub proof fn lemma_update_settings_repeatable(
    args: UpdateSettingsArgs,
    r1: Result<(), String>,
    r2: Result<(), String>,
)
    requires
        outcome_of(Ok::<(), CallRejection>(()), r1),
        outcome_of(Ok::<(), CallRejection>(()), r2),
    ensures
        update_settings_call(args).payload == Payload::UpdateSettings(args),
        update_settings_call(args).payment == 0,
        r1 == r2,
        r1 == Ok::<(), String>(()),
{
}

/// Within one installation, the persist call carries the very bytes that the
/// install-code call carried, and goes to the canister that was installed.
pub proof fn lemma_persist_bytes_match_install(
    canister_id: Seq<u8>,
    wasm: Seq<u8>,
    arg: Seq<u8>,
    s: InstallState,
    install: RemoteCall,
    next: Option<InstallState>,
    persist: RemoteCall,
)
    requires
        install_started(canister_id, wasm, arg, s, install),
        install_stepped(s, Ok(()), next, InstallAction::Call(persist)),
    ensures
        module_bytes(persist) == module_bytes(install),
        module_bytes(install) == Some(wasm),
        persist.method == Method::StoreWalletWasm,
        persist.target is Canister,
        persist.target->Canister_0@ == canister_id,
        next == Some(InstallState::AwaitPersist),
{
}

} // verus!
