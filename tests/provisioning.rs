use issuance_tool::provisioning::{
    call_error_message, create_canister_outcome, create_canister_request, install_next,
    install_start, reply_outcome, update_settings_outcome, update_settings_request,
    CallRejection, InstallAction, InstallMode, InstallState, Method, Payload, RemoteCall, Target,
};
use issuance_tool::types::{
    CanisterSettings, CreateCanisterArgs, CreateResult, Natural, Principal, UpdateSettingsArgs,
};

fn principal(bytes: &[u8]) -> Principal {
    Principal { bytes: bytes.to_vec() }
}

fn settings_with_no_controllers() -> CanisterSettings {
    CanisterSettings {
        controllers: Some(vec![]),
        compute_allocation: None,
        memory_allocation: None,
        freezing_threshold: None,
    }
}

fn rejection(code: u8, message: &str) -> CallRejection {
    CallRejection { code, message: message.to_string() }
}

fn module_of(call: &RemoteCall) -> Vec<u8> {
    match &call.payload {
        Payload::InstallCode(i) => i.wasm_module.clone(),
        Payload::StoreWalletWasm(t) => t.wasm_module.clone(),
        _ => panic!("the call carries no module"),
    }
}

#[test]
fn create_then_install_succeeds() {
    let args = CreateCanisterArgs { cycles: 1_000_000, settings: settings_with_no_controllers() };
    let call = create_canister_request(args);
    assert!(matches!(call.target, Target::Management));
    assert_eq!(call.method, Method::CreateCanister);
    assert_eq!(call.method.name(), "create_canister");
    assert_eq!(call.payment, 1_000_000);
    match &call.payload {
        Payload::CreateCanister { settings: Some(s) } => {
            assert_eq!(s.controllers.as_ref().map(|c| c.len()), Some(0));
        }
        _ => panic!("unexpected payload"),
    }
    let created = create_canister_outcome(Ok(CreateResult { canister_id: principal(&[7, 1, 9]) }))
        .unwrap();
    assert_eq!(created.canister_id.bytes, vec![7, 1, 9]);

    let module: Vec<u8> = (0..50u8).collect();
    let (state, install) = install_start(&created.canister_id, module.clone(), vec![]);
    assert!(matches!(install.target, Target::Management));
    assert_eq!(install.method.name(), "install_code");
    assert_eq!(install.payment, 0);
    match &install.payload {
        Payload::InstallCode(i) => {
            assert_eq!(i.mode, InstallMode::Install);
            assert_eq!(i.mode.name(), "install");
            assert_eq!(i.canister_id.bytes, vec![7, 1, 9]);
            assert_eq!(i.wasm_module, module);
            assert!(i.arg.is_empty());
        }
        _ => panic!("unexpected payload"),
    }
    let (next, action) = install_next(state, Ok(()));
    let persist = match action {
        InstallAction::Call(c) => c,
        InstallAction::Finish(_) => panic!("the persist call is missing"),
    };
    assert_eq!(persist.method.name(), "wallet_store_wallet_wasm");
    match &persist.target {
        Target::Canister(p) => assert_eq!(p.bytes, vec![7, 1, 9]),
        Target::Management => panic!("the persist call goes to the canister"),
    }
    let state = next.unwrap();
    assert!(matches!(state, InstallState::AwaitPersist));
    let (last, action) = install_next(state, Ok(()));
    assert!(last.is_none());
    assert!(matches!(action, InstallAction::Finish(Ok(()))));
}

#[test]
fn install_failure_skips_persist() {
    let (state, _install) = install_start(&principal(&[1]), vec![0, 97, 115, 109], vec![]);
    let (next, action) = install_next(state, Err(rejection(5, "canister trapped")));
    assert!(next.is_none());
    match action {
        InstallAction::Finish(Err(msg)) => {
            assert_eq!(msg, "An error happened during the call: 5: canister trapped")
        }
        _ => panic!("the installation must end with the error"),
    }
}

#[test]
fn persist_failure_is_reported() {
    let (state, _install) = install_start(&principal(&[1]), vec![1, 2, 3], vec![4]);
    let (state, _persist) = install_next(state, Ok(()));
    let (next, action) = install_next(state.unwrap(), Err(rejection(4, "no such method")));
    assert!(next.is_none());
    match action {
        InstallAction::Finish(Err(msg)) => {
            assert_eq!(msg, "An error happened during the call: 4: no such method")
        }
        _ => panic!("the installation must end with the error"),
    }
}

#[test]
fn persist_carries_installed_bytes() {
    let module = vec![0u8, 97, 115, 109, 1, 0, 0, 0, 255];
    let (state, install) = install_start(&principal(&[3, 3]), module.clone(), vec![9, 9]);
    let (_, action) = install_next(state, Ok(()));
    let persist = match action {
        InstallAction::Call(c) => c,
        InstallAction::Finish(_) => panic!("the persist call is missing"),
    };
    assert_eq!(module_of(&install), module);
    assert_eq!(module_of(&persist), module_of(&install));
}

#[test]
fn error_text_has_code_and_message() {
    assert_eq!(call_error_message(&rejection(0, "")), "An error happened during the call: 0: ");
    assert_eq!(
        call_error_message(&rejection(255, "out of cycles")),
        "An error happened during the call: 255: out of cycles"
    );
    assert_eq!(
        call_error_message(&rejection(10, "x: y")),
        "An error happened during the call: 10: x: y"
    );
}

#[test]
fn create_rejection_is_reported() {
    match create_canister_outcome(Err(rejection(3, "destination invalid"))) {
        Err(msg) => assert_eq!(msg, "An error happened during the call: 3: destination invalid"),
        Ok(_) => panic!("a rejection must fail"),
    }
}

#[test]
fn update_settings_repeats_alike() {
    for _ in 0..2 {
        let settings = CanisterSettings {
            controllers: Some(vec![principal(&[2])]),
            compute_allocation: Some(Natural { le_bytes: vec![50] }),
            memory_allocation: None,
            freezing_threshold: Some(Natural { le_bytes: vec![0, 1] }),
        };
        let call = update_settings_request(UpdateSettingsArgs {
            canister_id: principal(&[8, 8]),
            settings,
        });
        assert!(matches!(call.target, Target::Management));
        assert_eq!(call.method.name(), "update_settings");
        assert_eq!(call.payment, 0);
        match &call.payload {
            Payload::UpdateSettings(a) => {
                assert_eq!(a.canister_id.bytes, vec![8, 8]);
                assert_eq!(a.settings.compute_allocation.as_ref().unwrap().le_bytes, vec![50]);
            }
            _ => panic!("unexpected payload"),
        }
        assert_eq!(update_settings_outcome(Ok(())), Ok(()));
    }
    assert_eq!(
        update_settings_outcome(Err(rejection(2, "busy"))),
        Err("An error happened during the call: 2: busy".to_string())
    );
}

#[test]
fn reply_outcome_passes_value() {
    assert_eq!(reply_outcome::<u32>(Ok(17)), Ok(17));
    assert_eq!(
        reply_outcome::<u32>(Err(rejection(1, "fatal"))),
        Err("An error happened during the call: 1: fatal".to_string())
    );
}

#[test]
fn install_modes_are_named() {
    assert_eq!(InstallMode::Reinstall.name(), "reinstall");
    assert_eq!(InstallMode::Upgrade.name(), "upgrade");
}
