//! Validation of decoded actions. A [`SabreRequestPayload`] is an action
//! whose required fields are all non-empty; nothing else can hold one.

use crate::action::{Action, ActionKind, ActionView, Field, required_fields};
use vstd::prelude::*;

verus! {

/// The first required field of an action that was found empty.
#[derive(Clone, Copy, Debug, PartialEq, Eq, Structural)]
pub struct ValidationError {
    pub variant: ActionKind,
    pub field: Field,
}

/// The payload bytes did not decode to an action.
#[derive(Clone, Copy, Debug, PartialEq, Eq, Structural)]
pub struct DecodeError {}

/// Why a payload was turned away before execution.
#[derive(Clone, Copy, Debug, PartialEq, Eq, Structural)]
pub enum PayloadError {
    Decode(DecodeError),
    Validation(ValidationError),
}

/// An action that has passed validation.
#[derive(Debug)]
pub struct SabreRequestPayload {
    action: Action,
}

impl View for SabreRequestPayload {
    type V = ActionView;

    closed spec fn view(&self) -> ActionView {
        self.action@
    }
}

/// What validation owes for an action: acceptance of the unchanged action
/// exactly when every required field is non-empty, and otherwise the first
/// empty one among them.
pub open spec fn validates_to(
    action: ActionView,
    result: Result<SabreRequestPayload, ValidationError>,
) -> bool {
    match result {
        Ok(payload) => action.well_formed() && payload@ == action,
        Err(e) => e.variant == action.kind() && exists|i: int|
            #[trigger] action.first_empty_at(i) && e.field == action.required()[i],
    }
}

/// What screening owes for a decoding attempt: a decode failure is passed on,
/// a decoded action is validated.
pub open spec fn screens_to(
    decoded: Result<Action, DecodeError>,
    result: Result<Option<SabreRequestPayload>, PayloadError>,
) -> bool {
    match decoded {
        Err(e) => result == Err::<Option<SabreRequestPayload>, PayloadError>(
            PayloadError::Decode(e),
        ),
        Ok(action) => match result {
            Ok(Some(payload)) => validates_to(action@, Ok(payload)),
            Ok(None) => false,
            Err(PayloadError::Validation(e)) => validates_to(action@, Err(e)),
            Err(PayloadError::Decode(_)) => false,
        },
    }
}

impl SabreRequestPayload {
    #[verifier::type_invariant]
    spec fn all_required_fields_present(&self) -> bool {
        self.action@.well_formed()
    }

    /// Checks the required fields of `action` in table order and stops at the
    /// first empty one.
    pub fn validate(action: Action) -> (result: Result<SabreRequestPayload, ValidationError>)
        ensures
            validates_to(action@, result),
    {
        let variant = action.kind();
        match &action {
            Action::CreateContract { name, version, inputs, outputs, contract } => {
                if name.as_str().is_empty() {
                    assert(action@.first_empty_at(0));
                    return Err(ValidationError { variant, field: Field::Name });
                }
                if version.as_str().is_empty() {
                    assert(action@.first_empty_at(1));
                    return Err(ValidationError { variant, field: Field::Version });
                }
                if inputs.len() == 0 {
                    assert(action@.first_empty_at(2));
                    return Err(ValidationError { variant, field: Field::Inputs });
                }
                if outputs.len() == 0 {
                    assert(action@.first_empty_at(3));
                    return Err(ValidationError { variant, field: Field::Outputs });
                }
                if contract.len() == 0 {
                    assert(action@.first_empty_at(4));
                    return Err(ValidationError { variant, field: Field::Contract });
                }
            },
            Action::DeleteContract { name, version } => {
                if name.as_str().is_empty() {
                    assert(action@.first_empty_at(0));
                    return Err(ValidationError { variant, field: Field::Name });
                }
                if version.as_str().is_empty() {
                    assert(action@.first_empty_at(1));
                    return Err(ValidationError { variant, field: Field::Version });
                }
            },
            Action::ExecuteContract { name, version, inputs, outputs, payload } => {
                if name.as_str().is_empty() {
                    assert(action@.first_empty_at(0));
                    return Err(ValidationError { variant, field: Field::Name });
                }
                if version.as_str().is_empty() {
                    assert(action@.first_empty_at(1));
                    return Err(ValidationError { variant, field: Field::Version });
                }
                if inputs.len() == 0 {
                    assert(action@.first_empty_at(2));
                    return Err(ValidationError { variant, field: Field::Inputs });
                }
                if outputs.len() == 0 {
                    assert(action@.first_empty_at(3));
                    return Err(ValidationError { variant, field: Field::Outputs });
                }
                if payload.len() == 0 {
                    assert(action@.first_empty_at(4));
                    return Err(ValidationError { variant, field: Field::Payload });
                }
            },
            Action::CreateContractRegistry { name, owners } => {
                if name.as_str().is_empty() {
                    assert(action@.first_empty_at(0));
                    return Err(ValidationError { variant, field: Field::Name });
                }
                if owners.len() == 0 {
                    assert(action@.first_empty_at(1));
                    return Err(ValidationError { variant, field: Field::Owners });
                }
            },
            Action::DeleteContractRegistry { name } => {
                if name.as_str().is_empty() {
                    assert(action@.first_empty_at(0));
                    return Err(ValidationError { variant, field: Field::Name });
                }
            },
            Action::UpdateContractRegistryOwners { name, owners } => {
                if name.as_str().is_empty() {
                    assert(action@.first_empty_at(0));
                    return Err(ValidationError { variant, field: Field::Name });
                }
                if owners.len() == 0 {
                    assert(action@.first_empty_at(1));
                    return Err(ValidationError { variant, field: Field::Owners });
                }
            },
            Action::CreateNamespaceRegistry { namespace, owners } => {
                if namespace.as_str().is_empty() {
                    assert(action@.first_empty_at(0));
                    return Err(ValidationError { variant, field: Field::Namespace });
                }
                if owners.len() == 0 {
                    assert(action@.first_empty_at(1));
                    return Err(ValidationError { variant, field: Field::Owners });
                }
            },
            Action::DeleteNamespaceRegistry { namespace } => {
                if namespace.as_str().is_empty() {
                    assert(action@.first_empty_at(0));
                    return Err(ValidationError { variant, field: Field::Namespace });
                }
            },
            Action::UpdateNamespaceRegistryOwners { namespace, owners } => {
                if namespace.as_str().is_empty() {
                    assert(action@.first_empty_at(0));
                    return Err(ValidationError { variant, field: Field::Namespace });
                }
                if owners.len() == 0 {
                    assert(action@.first_empty_at(1));
                    return Err(ValidationError { variant, field: Field::Owners });
                }
            },
            Action::CreateNamespaceRegistryPermission { namespace, contract_name, .. } => {
                if namespace.as_str().is_empty() {
                    assert(action@.first_empty_at(0));
                    return Err(ValidationError { variant, field: Field::Namespace });
                }
                if contract_name.as_str().is_empty() {
                    assert(action@.first_empty_at(1));
                    return Err(ValidationError { variant, field: Field::ContractName });
                }
            },
            Action::DeleteNamespaceRegistryPermission { namespace, contract_name } => {
                if namespace.as_str().is_empty() {
                    assert(action@.first_empty_at(0));
                    return Err(ValidationError { variant, field: Field::Namespace });
                }
                if contract_name.as_str().is_empty() {
                    assert(action@.first_empty_at(1));
                    return Err(ValidationError { variant, field: Field::ContractName });
                }
            },
            Action::CreateSmartPermission { org_id, name, function } => {
                if org_id.as_str().is_empty() {
                    assert(action@.first_empty_at(0));
                    return Err(ValidationError { variant, field: Field::OrgId });
                }
                if name.as_str().is_empty() {
                    assert(action@.first_empty_at(1));
                    return Err(ValidationError { variant, field: Field::Name });
                }
                if function.len() == 0 {
                    assert(action@.first_empty_at(2));
                    return Err(ValidationError { variant, field: Field::Function });
                }
            },
            Action::UpdateSmartPermission { org_id, name, function } => {
                if org_id.as_str().is_empty() {
                    assert(action@.first_empty_at(0));
                    return Err(ValidationError { variant, field: Field::OrgId });
                }
                if name.as_str().is_empty() {
                    assert(action@.first_empty_at(1));
                    return Err(ValidationError { variant, field: Field::Name });
                }
                if function.len() == 0 {
                    assert(action@.first_empty_at(2));
                    return Err(ValidationError { variant, field: Field::Function });
                }
            },
            Action::DeleteSmartPermission { org_id, name } => {
                if org_id.as_str().is_empty() {
                    assert(action@.first_empty_at(0));
                    return Err(ValidationError { variant, field: Field::OrgId });
                }
                if name.as_str().is_empty() {
                    assert(action@.first_empty_at(1));
                    return Err(ValidationError { variant, field: Field::Name });
                }
            },
            Action::CreateAccount { org_id, public_key } => {
                if org_id.as_str().is_empty() {
                    assert(action@.first_empty_at(0));
                    return Err(ValidationError { variant, field: Field::OrgId });
                }
                if public_key.as_str().is_empty() {
                    assert(action@.first_empty_at(1));
                    return Err(ValidationError { variant, field: Field::PublicKey });
                }
            },
            Action::UpdateAccount { org_id, public_key } => {
                if org_id.as_str().is_empty() {
                    assert(action@.first_empty_at(0));
                    return Err(ValidationError { variant, field: Field::OrgId });
                }
                if public_key.as_str().is_empty() {
                    assert(action@.first_empty_at(1));
                    return Err(ValidationError { variant, field: Field::PublicKey });
                }
            },
            Action::CreateOrganization { id, name, address } => {
                if id.as_str().is_empty() {
                    assert(action@.first_empty_at(0));
                    return Err(ValidationError { variant, field: Field::Id });
                }
                if name.as_str().is_empty() {
                    assert(action@.first_empty_at(1));
                    return Err(ValidationError { variant, field: Field::Name });
                }
                if address.as_str().is_empty() {
                    assert(action@.first_empty_at(2));
                    return Err(ValidationError { variant, field: Field::Address });
                }
            },
            Action::UpdateOrganization { id, name, address } => {
                if id.as_str().is_empty() {
                    assert(action@.first_empty_at(0));
                    return Err(ValidationError { variant, field: Field::Id });
                }
                if name.as_str().is_empty() {
                    assert(action@.first_empty_at(1));
                    return Err(ValidationError { variant, field: Field::Name });
                }
                if address.as_str().is_empty() {
                    assert(action@.first_empty_at(2));
                    return Err(ValidationError { variant, field: Field::Address });
                }
            },
        }
        Ok(SabreRequestPayload { action })
    }

    /// Screens the outcome of decoding a payload: a decoded action is
    /// validated, a failure to decode is reported as such.
    pub fn new(decoded: Result<Action, DecodeError>) -> (result: Result<
        Option<SabreRequestPayload>,
        PayloadError,
    >)
        ensures
            screens_to(decoded, result),
    {
        match decoded {
            Err(e) => Err(PayloadError::Decode(e)),
            Ok(action) => match SabreRequestPayload::validate(action) {
                Ok(payload) => Ok(Some(payload)),
                Err(e) => Err(PayloadError::Validation(e)),
            },
        }
    }

    /// A copy of the validated action.
    pub fn get_action(&self) -> (action: Action)
        ensures
            action@ == self@,
            action@.well_formed(),
    {
        proof {
            use_type_invariant(self);
        }
        self.action.clone()
    }
}

/// The text that reports an empty `field` of an action of kind `variant`.
pub open spec fn message_text(variant: ActionKind, field: Field) -> Seq<char> {
    match field {
        Field::Name => match variant {
            ActionKind::CreateContract
            | ActionKind::DeleteContract
            | ActionKind::ExecuteContract => "Contract name cannot be an empty string"@,
            ActionKind::CreateContractRegistry
            | ActionKind::DeleteContractRegistry
            | ActionKind::UpdateContractRegistryOwners =>
                "Contract Registry name cannot be an empty string"@,
            ActionKind::CreateSmartPermission
            | ActionKind::UpdateSmartPermission
            | ActionKind::DeleteSmartPermission => "Smart permission name required"@,
            _ => "Organization name required"@,
        },
        Field::Version => "Contract version cannot be an empty string"@,
        Field::Inputs => "Contract inputs cannot be an empty"@,
        Field::Outputs => "Contract outputs cannot be an empty"@,
        Field::Contract => "Contract bytes cannot be an empty"@,
        Field::Payload => "Contract payload cannot be an empty"@,
        Field::Owners => match variant {
            ActionKind::CreateContractRegistry
            | ActionKind::UpdateContractRegistryOwners =>
                "Contract Registry owners cannot be an empty"@,
            _ => "Namespace owners cannot be an empty"@,
        },
        Field::Namespace => "Namespace Registry namespace cannot be an empty string"@,
        Field::ContractName => "Contract name cannot be an empty string"@,
        Field::OrgId => "Organization ID required"@,
        Field::Function => "Function body required"@,
        Field::PublicKey => "Account public_key required"@,
        Field::Id => "Organization ID required"@,
        Field::Address => "Organization address required"@,
    }
}

/// The text that reports a payload that did not decode.
pub open spec fn decode_message_text() -> Seq<char> {
    "Cannot deserialize payload"@
}

impl ValidationError {
    /// The error names a field that its variant requires.
    pub open spec fn well_formed(self) -> bool {
        required_fields(self.variant).contains(self.field)
    }

    /// The diagnostic for this error.
    pub fn message(&self) -> (text: String)
        ensures
            text@ == message_text(self.variant, self.field),
    {
        let text: &str = match self.field {
            Field::Name => match self.variant {
                ActionKind::CreateContract
                | ActionKind::DeleteContract
                | ActionKind::ExecuteContract => "Contract name cannot be an empty string",
                ActionKind::CreateContractRegistry
                | ActionKind::DeleteContractRegistry
                | ActionKind::UpdateContractRegistryOwners =>
                    "Contract Registry name cannot be an empty string",
                ActionKind::CreateSmartPermission
                | ActionKind::UpdateSmartPermission
                | ActionKind::DeleteSmartPermission => "Smart permission name required",
                _ => "Organization name required",
            },
            Field::Version => "Contract version cannot be an empty string",
            Field::Inputs => "Contract inputs cannot be an empty",
            Field::Outputs => "Contract outputs cannot be an empty",
            Field::Contract => "Contract bytes cannot be an empty",
            Field::Payload => "Contract payload cannot be an empty",
            Field::Owners => match self.variant {
                ActionKind::CreateContractRegistry
                | ActionKind::UpdateContractRegistryOwners =>
                    "Contract Registry owners cannot be an empty",
                _ => "Namespace owners cannot be an empty",
            },
            Field::Namespace => "Namespace Registry namespace cannot be an empty string",
            Field::ContractName => "Contract name cannot be an empty string",
            Field::OrgId => "Organization ID required",
            Field::Function => "Function body required",
            Field::PublicKey => "Account public_key required",
            Field::Id => "Organization ID required",
            Field::Address => "Organization address required",
        };
        String::from_str(text)
    }
}

impl PayloadError {
    /// The text of the diagnostic for this error.
    pub open spec fn message_text(self) -> Seq<char> {
        match self {
            PayloadError::Decode(_) => decode_message_text(),
            PayloadError::Validation(e) => message_text(e.variant, e.field),
        }
    }

    /// The diagnostic for this error.
    pub fn message(&self) -> (text: String)
        ensures
            text@ == self.message_text(),
    {
        match self {
            PayloadError::Decode(_) => String::from_str("Cannot deserialize payload"),
            PayloadError::Validation(e) => e.message(),
        }
    }
}

/// At most one position is the first empty one.
pub proof fn first_empty_is_unique(action: ActionView, i: int, j: int)
    requires
        action.first_empty_at(i),
        action.first_empty_at(j),
    ensures
        i == j,
{
    if i < j {
        assert(action.field_len(action.required()[i]) > 0);
    } else if j < i {
        assert(action.field_len(action.required()[j]) > 0);
    }
}

/// Validation accepts an action when and only when every field that its
/// variant requires is non-empty, and an error names a required field.
pub proof fn accepted_iff_well_formed(
    action: ActionView,
    result: Result<SabreRequestPayload, ValidationError>,
)
    requires
        validates_to(action, result),
    ensures
        result is Ok <==> action.well_formed(),
        result matches Err(e) ==> e.well_formed(),
{
    if let Err(e) = result {
        let i = choose|i: int| #[trigger]
            action.first_empty_at(i) && e.field == action.required()[i];
        assert(action.field_len(action.required()[i]) == 0);
    }
}

/// When exactly one of the required fields is empty, validation fails with
/// the one error that names the variant and that field.
pub proof fn lone_empty_field_is_named(
    action: ActionView,
    i: int,
    result: Result<SabreRequestPayload, ValidationError>,
)
    requires
        0 <= i < action.required().len(),
        forall|j: int|
            0 <= j < action.required().len() ==> (action.field_len(
                #[trigger] action.required()[j],
            ) == 0 <==> j == i),
        validates_to(action, result),
    ensures
        result == Err::<SabreRequestPayload, ValidationError>(
            ValidationError { variant: action.kind(), field: action.required()[i] },
        ),
{
    assert(action.field_len(action.required()[i]) == 0);
    assert(action.first_empty_at(i));
    accepted_iff_well_formed(action, result);
    let e = result->Err_0;
    let k = choose|k: int| #[trigger]
        action.first_empty_at(k) && e.field == action.required()[k];
    first_empty_is_unique(action, i, k);
}

/// Validation is a function of the action: two runs on the same action agree
/// on acceptance, on the accepted action and on the error.
pub proof fn validation_is_deterministic(
    action: ActionView,
    first: Result<SabreRequestPayload, ValidationError>,
    second: Result<SabreRequestPayload, ValidationError>,
)
    requires
        validates_to(action, first),
        validates_to(action, second),
    ensures
        match (first, second) {
            (Ok(p), Ok(q)) => p@ == q@,
            (Err(e), Err(f)) => e == f,
            _ => false,
        },
{
    accepted_iff_well_formed(action, first);
    accepted_iff_well_formed(action, second);
    if let (Err(e), Err(f)) = (first, second) {
        let i = choose|i: int| #[trigger]
            action.first_empty_at(i) && e.field == action.required()[i];
        let j = choose|j: int| #[trigger]
            action.first_empty_at(j) && f.field == action.required()[j];
        first_empty_is_unique(action, i, j);
    }
}

/// Validating an accepted action once more accepts it again, unchanged.
pub proof fn validation_is_idempotent(
    action: ActionView,
    accepted: SabreRequestPayload,
    again: Result<SabreRequestPayload, ValidationError>,
)
    requires
        validates_to(action, Ok(accepted)),
        validates_to(accepted@, again),
    ensures
        again matches Ok(payload) && payload@ == action,
{
    accepted_iff_well_formed(accepted@, again);
}

} // verus!
