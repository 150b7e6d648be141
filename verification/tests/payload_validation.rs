use sabre_gateway::action::{Action, ActionKind, Field};
use sabre_gateway::payload::{DecodeError, PayloadError, SabreRequestPayload, ValidationError};

fn s(text: &str) -> String {
    String::from(text)
}

fn list() -> Vec<String> {
    vec![s("00ec01"), s("cad11d")]
}

/// One well-formed action of every kind.
fn well_formed_actions() -> Vec<Action> {
    vec![
        Action::CreateContract {
            name: s("foo"),
            version: s("1.0"),
            inputs: list(),
            outputs: list(),
            contract: vec![0, 97, 115, 109],
        },
        Action::DeleteContract { name: s("foo"), version: s("1.0") },
        Action::ExecuteContract {
            name: s("foo"),
            version: s("1.0"),
            inputs: list(),
            outputs: list(),
            payload: vec![1, 2, 3],
        },
        Action::CreateContractRegistry { name: s("foo"), owners: list() },
        Action::DeleteContractRegistry { name: s("foo") },
        Action::UpdateContractRegistryOwners { name: s("foo"), owners: list() },
        Action::CreateNamespaceRegistry { namespace: s("00ec01"), owners: list() },
        Action::DeleteNamespaceRegistry { namespace: s("00ec01") },
        Action::UpdateNamespaceRegistryOwners { namespace: s("00ec01"), owners: list() },
        Action::CreateNamespaceRegistryPermission {
            namespace: s("00ec01"),
            contract_name: s("foo"),
            read: false,
            write: false,
        },
        Action::DeleteNamespaceRegistryPermission {
            namespace: s("00ec01"),
            contract_name: s("foo"),
        },
        Action::CreateSmartPermission { org_id: s("org"), name: s("perm"), function: vec![9] },
        Action::UpdateSmartPermission { org_id: s("org"), name: s("perm"), function: vec![9] },
        Action::DeleteSmartPermission { org_id: s("org"), name: s("perm") },
        Action::CreateAccount { org_id: s("org"), public_key: s("02abc") },
        Action::UpdateAccount { org_id: s("org"), public_key: s("02abc") },
        Action::CreateOrganization { id: s("org"), name: s("Org"), address: s("1 Main St") },
        Action::UpdateOrganization { id: s("org"), name: s("Org"), address: s("1 Main St") },
    ]
}

/// The fields each kind requires, in check order.
fn table(kind: ActionKind) -> Vec<Field> {
    match kind {
        ActionKind::CreateContract => {
            vec![Field::Name, Field::Version, Field::Inputs, Field::Outputs, Field::Contract]
        }
        ActionKind::DeleteContract => vec![Field::Name, Field::Version],
        ActionKind::ExecuteContract => {
            vec![Field::Name, Field::Version, Field::Inputs, Field::Outputs, Field::Payload]
        }
        ActionKind::CreateContractRegistry => vec![Field::Name, Field::Owners],
        ActionKind::DeleteContractRegistry => vec![Field::Name],
        ActionKind::UpdateContractRegistryOwners => vec![Field::Name, Field::Owners],
        ActionKind::CreateNamespaceRegistry => vec![Field::Namespace, Field::Owners],
        ActionKind::DeleteNamespaceRegistry => vec![Field::Namespace],
        ActionKind::UpdateNamespaceRegistryOwners => vec![Field::Namespace, Field::Owners],
        ActionKind::CreateNamespaceRegistryPermission => vec![Field::Namespace, Field::ContractName],
        ActionKind::DeleteNamespaceRegistryPermission => vec![Field::Namespace, Field::ContractName],
        ActionKind::CreateSmartPermission => vec![Field::OrgId, Field::Name, Field::Function],
        ActionKind::UpdateSmartPermission => vec![Field::OrgId, Field::Name, Field::Function],
        ActionKind::DeleteSmartPermission => vec![Field::OrgId, Field::Name],
        ActionKind::CreateAccount => vec![Field::OrgId, Field::PublicKey],
        ActionKind::UpdateAccount => vec![Field::OrgId, Field::PublicKey],
        ActionKind::CreateOrganization => vec![Field::Id, Field::Name, Field::Address],
        ActionKind::UpdateOrganization => vec![Field::Id, Field::Name, Field::Address],
    }
}

/// Empties one field of an action, if the action has it.
fn clear(action: &mut Action, field: Field) {
    match (action, field) {
        (Action::CreateContract { name, .. }, Field::Name)
        | (Action::DeleteContract { name, .. }, Field::Name)
        | (Action::ExecuteContract { name, .. }, Field::Name)
        | (Action::CreateContractRegistry { name, .. }, Field::Name)
        | (Action::DeleteContractRegistry { name }, Field::Name)
        | (Action::UpdateContractRegistryOwners { name, .. }, Field::Name)
        | (Action::CreateSmartPermission { name, .. }, Field::Name)
        | (Action::UpdateSmartPermission { name, .. }, Field::Name)
        | (Action::DeleteSmartPermission { name, .. }, Field::Name)
        | (Action::CreateOrganization { name, .. }, Field::Name)
        | (Action::UpdateOrganization { name, .. }, Field::Name) => name.clear(),
        (Action::CreateContract { version, .. }, Field::Version)
        | (Action::DeleteContract { version, .. }, Field::Version)
        | (Action::ExecuteContract { version, .. }, Field::Version) => version.clear(),
        (Action::CreateContract { inputs, .. }, Field::Inputs)
        | (Action::ExecuteContract { inputs, .. }, Field::Inputs) => inputs.clear(),
        (Action::CreateContract { outputs, .. }, Field::Outputs)
        | (Action::ExecuteContract { outputs, .. }, Field::Outputs) => outputs.clear(),
        (Action::CreateContract { contract, .. }, Field::Contract) => contract.clear(),
        (Action::ExecuteContract { payload, .. }, Field::Payload) => payload.clear(),
        (Action::CreateContractRegistry { owners, .. }, Field::Owners)
        | (Action::UpdateContractRegistryOwners { owners, .. }, Field::Owners)
        | (Action::CreateNamespaceRegistry { owners, .. }, Field::Owners)
        | (Action::UpdateNamespaceRegistryOwners { owners, .. }, Field::Owners) => owners.clear(),
        (Action::CreateNamespaceRegistry { namespace, .. }, Field::Namespace)
        | (Action::DeleteNamespaceRegistry { namespace }, Field::Namespace)
        | (Action::UpdateNamespaceRegistryOwners { namespace, .. }, Field::Namespace)
        | (Action::CreateNamespaceRegistryPermission { namespace, .. }, Field::Namespace)
        | (Action::DeleteNamespaceRegistryPermission { namespace, .. }, Field::Namespace) => {
            namespace.clear()
        }
        (Action::CreateNamespaceRegistryPermission { contract_name, .. }, Field::ContractName)
        | (Action::DeleteNamespaceRegistryPermission { contract_name, .. }, Field::ContractName) => {
            contract_name.clear()
        }
        (Action::CreateSmartPermission { org_id, .. }, Field::OrgId)
        | (Action::UpdateSmartPermission { org_id, .. }, Field::OrgId)
        | (Action::DeleteSmartPermission { org_id, .. }, Field::OrgId)
        | (Action::CreateAccount { org_id, .. }, Field::OrgId)
        | (Action::UpdateAccount { org_id, .. }, Field::OrgId) => org_id.clear(),
        (Action::CreateSmartPermission { function, .. }, Field::Function)
        | (Action::UpdateSmartPermission { function, .. }, Field::Function) => function.clear(),
        (Action::CreateAccount { public_key, .. }, Field::PublicKey)
        | (Action::UpdateAccount { public_key, .. }, Field::PublicKey) => public_key.clear(),
        (Action::CreateOrganization { id, .. }, Field::Id)
        | (Action::UpdateOrganization { id, .. }, Field::Id) => id.clear(),
        (Action::CreateOrganization { address, .. }, Field::Address)
        | (Action::UpdateOrganization { address, .. }, Field::Address) => address.clear(),
        (_, other) => panic!("the action has no field {:?}", other),
    }
}

#[test]
fn there_are_eighteen_kinds_and_each_action_reports_its_own() {
    let kinds: Vec<ActionKind> = well_formed_actions().iter().map(|a| a.kind()).collect();
    assert_eq!(kinds.len(), 18);
    assert_eq!(kinds[0], ActionKind::CreateContract);
    assert_eq!(kinds[10], ActionKind::DeleteNamespaceRegistryPermission);
    assert_eq!(kinds[17], ActionKind::UpdateOrganization);
    for (i, a) in kinds.iter().enumerate() {
        for (j, b) in kinds.iter().enumerate() {
            assert_eq!(a == b, i == j);
        }
    }
}

#[test]
fn every_well_formed_action_is_accepted_unchanged() {
    for action in well_formed_actions() {
        let expected = action.clone();
        let payload = SabreRequestPayload::validate(action).expect("accepted");
        assert_eq!(payload.get_action(), expected);
    }
}

#[test]
fn a_lone_empty_field_is_the_one_reported() {
    let mut cases = 0;
    for action in well_formed_actions() {
        let kind = action.kind();
        for field in table(kind) {
            let mut broken = action.clone();
            clear(&mut broken, field);
            let error = SabreRequestPayload::validate(broken).expect_err("rejected");
            assert_eq!(error, ValidationError { variant: kind, field });
            cases += 1;
        }
    }
    assert_eq!(cases, 44);
}

#[test]
fn the_first_empty_field_in_table_order_wins() {
    for action in well_formed_actions() {
        let kind = action.kind();
        let fields = table(kind);
        for from in 0..fields.len() {
            let mut broken = action.clone();
            // empty the later ones first, so that order of clearing cannot matter
            for field in fields[from..].iter().rev() {
                clear(&mut broken, *field);
            }
            let error = SabreRequestPayload::validate(broken).expect_err("rejected");
            assert_eq!(error, ValidationError { variant: kind, field: fields[from] });
        }
    }
}

#[test]
fn create_contract_with_empty_version_names_the_version() {
    let action = Action::CreateContract {
        name: s("foo"),
        version: s(""),
        inputs: list(),
        outputs: list(),
        contract: vec![1],
    };
    let result = SabreRequestPayload::new(Ok(action));
    assert_eq!(
        result.expect_err("rejected"),
        PayloadError::Validation(ValidationError {
            variant: ActionKind::CreateContract,
            field: Field::Version,
        })
    );
}

#[test]
fn delete_contract_with_name_and_version_is_accepted() {
    let action = Action::DeleteContract { name: s("foo"), version: s("1.0") };
    let payload = SabreRequestPayload::new(Ok(action)).expect("accepted").expect("a payload");
    assert_eq!(payload.get_action(), Action::DeleteContract { name: s("foo"), version: s("1.0") });
}

#[test]
fn a_payload_that_did_not_decode_is_reported_as_such() {
    let result = SabreRequestPayload::new(Err(DecodeError {}));
    let error = result.expect_err("rejected");
    assert_eq!(error, PayloadError::Decode(DecodeError {}));
    assert_eq!(error.message(), "Cannot deserialize payload");
}

#[test]
fn permission_flags_are_not_checked() {
    for (read, write) in [(false, false), (true, false), (false, true), (true, true)] {
        let action = Action::CreateNamespaceRegistryPermission {
            namespace: s("00ec01"),
            contract_name: s("foo"),
            read,
            write,
        };
        let payload = SabreRequestPayload::validate(action.clone()).expect("accepted");
        assert_eq!(payload.get_action(), action);
    }
}

#[test]
fn list_items_are_not_looked_into() {
    let action = Action::CreateContractRegistry { name: s("foo"), owners: vec![s("")] };
    assert!(SabreRequestPayload::validate(action).is_ok());
    let action = Action::CreateSmartPermission { org_id: s(" "), name: s(" "), function: vec![0] };
    assert!(SabreRequestPayload::validate(action).is_ok());
}

#[test]
fn validating_twice_gives_the_same_answer() {
    for action in well_formed_actions() {
        let kind = action.kind();
        let first = SabreRequestPayload::validate(action.clone()).expect("accepted");
        let second = SabreRequestPayload::validate(first.get_action()).expect("accepted again");
        assert_eq!(second.get_action(), action);
        for field in table(kind) {
            let mut broken = action.clone();
            clear(&mut broken, field);
            let once = SabreRequestPayload::validate(broken.clone()).expect_err("rejected");
            let twice = SabreRequestPayload::validate(broken).expect_err("rejected");
            assert_eq!(once, twice);
        }
    }
}

fn message(variant: ActionKind, field: Field) -> String {
    ValidationError { variant, field }.message()
}

#[test]
fn contract_messages() {
    for kind in [ActionKind::CreateContract, ActionKind::DeleteContract, ActionKind::ExecuteContract]
    {
        assert_eq!(message(kind, Field::Name), "Contract name cannot be an empty string");
        assert_eq!(message(kind, Field::Version), "Contract version cannot be an empty string");
    }
    for kind in [ActionKind::CreateContract, ActionKind::ExecuteContract] {
        assert_eq!(message(kind, Field::Inputs), "Contract inputs cannot be an empty");
        assert_eq!(message(kind, Field::Outputs), "Contract outputs cannot be an empty");
    }
    assert_eq!(
        message(ActionKind::CreateContract, Field::Contract),
        "Contract bytes cannot be an empty"
    );
    assert_eq!(
        message(ActionKind::ExecuteContract, Field::Payload),
        "Contract payload cannot be an empty"
    );
}

#[test]
fn registry_messages() {
    for kind in [
        ActionKind::CreateContractRegistry,
        ActionKind::DeleteContractRegistry,
        ActionKind::UpdateContractRegistryOwners,
    ] {
        assert_eq!(message(kind, Field::Name), "Contract Registry name cannot be an empty string");
    }
    for kind in [ActionKind::CreateContractRegistry, ActionKind::UpdateContractRegistryOwners] {
        assert_eq!(message(kind, Field::Owners), "Contract Registry owners cannot be an empty");
    }
    for kind in [
        ActionKind::CreateNamespaceRegistry,
        ActionKind::DeleteNamespaceRegistry,
        ActionKind::UpdateNamespaceRegistryOwners,
        ActionKind::CreateNamespaceRegistryPermission,
        ActionKind::DeleteNamespaceRegistryPermission,
    ] {
        assert_eq!(
            message(kind, Field::Namespace),
            "Namespace Registry namespace cannot be an empty string"
        );
    }
    for kind in [ActionKind::CreateNamespaceRegistry, ActionKind::UpdateNamespaceRegistryOwners] {
        assert_eq!(message(kind, Field::Owners), "Namespace owners cannot be an empty");
    }
    for kind in [
        ActionKind::CreateNamespaceRegistryPermission,
        ActionKind::DeleteNamespaceRegistryPermission,
    ] {
        assert_eq!(message(kind, Field::ContractName), "Contract name cannot be an empty string");
    }
}

#[test]
fn permission_account_and_organization_messages() {
    for kind in [
        ActionKind::CreateSmartPermission,
        ActionKind::UpdateSmartPermission,
        ActionKind::DeleteSmartPermission,
    ] {
        assert_eq!(message(kind, Field::OrgId), "Organization ID required");
        assert_eq!(message(kind, Field::Name), "Smart permission name required");
    }
    for kind in [ActionKind::CreateSmartPermission, ActionKind::UpdateSmartPermission] {
        assert_eq!(message(kind, Field::Function), "Function body required");
    }
    for kind in [ActionKind::CreateAccount, ActionKind::UpdateAccount] {
        assert_eq!(message(kind, Field::OrgId), "Organization ID required");
        assert_eq!(message(kind, Field::PublicKey), "Account public_key required");
    }
    for kind in [ActionKind::CreateOrganization, ActionKind::UpdateOrganization] {
        assert_eq!(message(kind, Field::Id), "Organization ID required");
        assert_eq!(message(kind, Field::Name), "Organization name required");
        assert_eq!(message(kind, Field::Address), "Organization address required");
    }
}

#[test]
fn a_validation_failure_carries_its_message_on() {
    let action = Action::ExecuteContract {
        name: s("foo"),
        version: s("1.0"),
        inputs: list(),
        outputs: list(),
        payload: vec![],
    };
    let error = SabreRequestPayload::new(Ok(action)).expect_err("rejected");
    assert_eq!(error.message(), "Contract payload cannot be an empty");
}

#[test]
fn a_copy_of_an_action_is_equal_to_it() {
    for action in well_formed_actions() {
        assert_eq!(action.clone(), action);
    }
}
