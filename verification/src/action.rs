//! The actions a transaction payload can carry, and the table of fields that
//! each action requires to be non-empty.

use vstd::prelude::*;

verus! {

/// Which of the mutually exclusive actions a payload carries.
#[derive(Clone, Copy, Debug, PartialEq, Eq, Structural)]
pub enum ActionKind {
    CreateContract,
    DeleteContract,
    ExecuteContract,
    CreateContractRegistry,
    DeleteContractRegistry,
    UpdateContractRegistryOwners,
    CreateNamespaceRegistry,
    DeleteNamespaceRegistry,
    UpdateNamespaceRegistryOwners,
    CreateNamespaceRegistryPermission,
    DeleteNamespaceRegistryPermission,
    CreateSmartPermission,
    UpdateSmartPermission,
    DeleteSmartPermission,
    CreateAccount,
    UpdateAccount,
    CreateOrganization,
    UpdateOrganization,
}

/// A field of an action that may be required to be non-empty.
#[derive(Clone, Copy, Debug, PartialEq, Eq, Structural)]
pub enum Field {
    Name,
    Version,
    Inputs,
    Outputs,
    Contract,
    Payload,
    Owners,
    Namespace,
    ContractName,
    OrgId,
    Function,
    PublicKey,
    Id,
    Address,
}

/// A decoded action: a closed union, each variant with its own fields.
#[derive(Debug, PartialEq, Eq)]
pub enum Action {
    CreateContract {
        name: String,
        version: String,
        inputs: Vec<String>,
        outputs: Vec<String>,
        contract: Vec<u8>,
    },
    DeleteContract { name: String, version: String },
    ExecuteContract {
        name: String,
        version: String,
        inputs: Vec<String>,
        outputs: Vec<String>,
        payload: Vec<u8>,
    },
    CreateContractRegistry { name: String, owners: Vec<String> },
    DeleteContractRegistry { name: String },
    UpdateContractRegistryOwners { name: String, owners: Vec<String> },
    CreateNamespaceRegistry { namespace: String, owners: Vec<String> },
    DeleteNamespaceRegistry { namespace: String },
    UpdateNamespaceRegistryOwners { namespace: String, owners: Vec<String> },
    CreateNamespaceRegistryPermission {
        namespace: String,
        contract_name: String,
        read: bool,
        write: bool,
    },
    DeleteNamespaceRegistryPermission { namespace: String, contract_name: String },
    CreateSmartPermission { org_id: String, name: String, function: Vec<u8> },
    UpdateSmartPermission { org_id: String, name: String, function: Vec<u8> },
    DeleteSmartPermission { org_id: String, name: String },
    CreateAccount { org_id: String, public_key: String },
    UpdateAccount { org_id: String, public_key: String },
    CreateOrganization { id: String, name: String, address: String },
    UpdateOrganization { id: String, name: String, address: String },
}

/// What an action is, as a mathematical value: strings as sequences of
/// characters, lists and buffers as sequences.
pub ghost enum ActionView {
    CreateContract {
        name: Seq<char>,
        version: Seq<char>,
        inputs: Seq<Seq<char>>,
        outputs: Seq<Seq<char>>,
        contract: Seq<u8>,
    },
    DeleteContract { name: Seq<char>, version: Seq<char> },
    ExecuteContract {
        name: Seq<char>,
        version: Seq<char>,
        inputs: Seq<Seq<char>>,
        outputs: Seq<Seq<char>>,
        payload: Seq<u8>,
    },
    CreateContractRegistry { name: Seq<char>, owners: Seq<Seq<char>> },
    DeleteContractRegistry { name: Seq<char> },
    UpdateContractRegistryOwners { name: Seq<char>, owners: Seq<Seq<char>> },
    CreateNamespaceRegistry { namespace: Seq<char>, owners: Seq<Seq<char>> },
    DeleteNamespaceRegistry { namespace: Seq<char> },
    UpdateNamespaceRegistryOwners { namespace: Seq<char>, owners: Seq<Seq<char>> },
    CreateNamespaceRegistryPermission {
        namespace: Seq<char>,
        contract_name: Seq<char>,
        read: bool,
        write: bool,
    },
    DeleteNamespaceRegistryPermission { namespace: Seq<char>, contract_name: Seq<char> },
    CreateSmartPermission { org_id: Seq<char>, name: Seq<char>, function: Seq<u8> },
    UpdateSmartPermission { org_id: Seq<char>, name: Seq<char>, function: Seq<u8> },
    DeleteSmartPermission { org_id: Seq<char>, name: Seq<char> },
    CreateAccount { org_id: Seq<char>, public_key: Seq<char> },
    UpdateAccount { org_id: Seq<char>, public_key: Seq<char> },
    CreateOrganization { id: Seq<char>, name: Seq<char>, address: Seq<char> },
    UpdateOrganization { id: Seq<char>, name: Seq<char>, address: Seq<char> },
}

impl View for Action {
    type V = ActionView;

    open spec fn view(&self) -> ActionView {
        match self {
            Action::CreateContract {
                name,
                version,
                inputs,
                outputs,
                contract,
            } => ActionView::CreateContract {
                name: name@,
                version: version@,
                inputs: inputs.deep_view(),
                outputs: outputs.deep_view(),
                contract: contract@,
            },
            Action::DeleteContract { name, version } => ActionView::DeleteContract {
                name: name@,
                version: version@,
            },
            Action::ExecuteContract {
                name,
                version,
                inputs,
                outputs,
                payload,
            } => ActionView::ExecuteContract {
                name: name@,
                version: version@,
                inputs: inputs.deep_view(),
                outputs: outputs.deep_view(),
                payload: payload@,
            },
            Action::CreateContractRegistry { name, owners } => ActionView::CreateContractRegistry {
                name: name@,
                owners: owners.deep_view(),
            },
            Action::DeleteContractRegistry { name } => ActionView::DeleteContractRegistry {
                name: name@,
            },
            Action::UpdateContractRegistryOwners {
                name,
                owners,
            } => ActionView::UpdateContractRegistryOwners {
                name: name@,
                owners: owners.deep_view(),
            },
            Action::CreateNamespaceRegistry {
                namespace,
                owners,
            } => ActionView::CreateNamespaceRegistry {
                namespace: namespace@,
                owners: owners.deep_view(),
            },
            Action::DeleteNamespaceRegistry { namespace } => ActionView::DeleteNamespaceRegistry {
                namespace: namespace@,
            },
            Action::UpdateNamespaceRegistryOwners {
                namespace,
                owners,
            } => ActionView::UpdateNamespaceRegistryOwners {
                namespace: namespace@,
                owners: owners.deep_view(),
            },
            Action::CreateNamespaceRegistryPermission {
                namespace,
                contract_name,
                read,
                write,
            } => ActionView::CreateNamespaceRegistryPermission {
                namespace: namespace@,
                contract_name: contract_name@,
                read: *read,
                write: *write,
            },
            Action::DeleteNamespaceRegistryPermission {
                namespace,
                contract_name,
            } => ActionView::DeleteNamespaceRegistryPermission {
                namespace: namespace@,
                contract_name: contract_name@,
            },
            Action::CreateSmartPermission {
                org_id,
                name,
                function,
            } => ActionView::CreateSmartPermission {
                org_id: org_id@,
                name: name@,
                function: function@,
            },
            Action::UpdateSmartPermission {
                org_id,
                name,
                function,
            } => ActionView::UpdateSmartPermission {
                org_id: org_id@,
                name: name@,
                function: function@,
            },
            Action::DeleteSmartPermission { org_id, name } => ActionView::DeleteSmartPermission {
                org_id: org_id@,
                name: name@,
            },
            Action::CreateAccount { org_id, public_key } => ActionView::CreateAccount {
                org_id: org_id@,
                public_key: public_key@,
            },
            Action::UpdateAccount { org_id, public_key } => ActionView::UpdateAccount {
                org_id: org_id@,
                public_key: public_key@,
            },
            Action::CreateOrganization { id, name, address } => ActionView::CreateOrganization {
                id: id@,
                name: name@,
                address: address@,
            },
            Action::UpdateOrganization { id, name, address } => ActionView::UpdateOrganization {
                id: id@,
                name: name@,
                address: address@,
            },
        }
    }
}

/// The fields that an action of the given kind must carry non-empty, in the
/// order in which they are checked.
pub open spec fn required_fields(kind: ActionKind) -> Seq<Field> {
    match kind {
        ActionKind::CreateContract =>
            seq![Field::Name, Field::Version, Field::Inputs, Field::Outputs, Field::Contract],
        ActionKind::DeleteContract => seq![Field::Name, Field::Version],
        ActionKind::ExecuteContract =>
            seq![Field::Name, Field::Version, Field::Inputs, Field::Outputs, Field::Payload],
        ActionKind::CreateContractRegistry => seq![Field::Name, Field::Owners],
        ActionKind::DeleteContractRegistry => seq![Field::Name],
        ActionKind::UpdateContractRegistryOwners => seq![Field::Name, Field::Owners],
        ActionKind::CreateNamespaceRegistry => seq![Field::Namespace, Field::Owners],
        ActionKind::DeleteNamespaceRegistry => seq![Field::Namespace],
        ActionKind::UpdateNamespaceRegistryOwners => seq![Field::Namespace, Field::Owners],
        ActionKind::CreateNamespaceRegistryPermission =>
            seq![Field::Namespace, Field::ContractName],
        ActionKind::DeleteNamespaceRegistryPermission =>
            seq![Field::Namespace, Field::ContractName],
        ActionKind::CreateSmartPermission => seq![Field::OrgId, Field::Name, Field::Function],
        ActionKind::UpdateSmartPermission => seq![Field::OrgId, Field::Name, Field::Function],
        ActionKind::DeleteSmartPermission => seq![Field::OrgId, Field::Name],
        ActionKind::CreateAccount => seq![Field::OrgId, Field::PublicKey],
        ActionKind::UpdateAccount => seq![Field::OrgId, Field::PublicKey],
        ActionKind::CreateOrganization => seq![Field::Id, Field::Name, Field::Address],
        ActionKind::UpdateOrganization => seq![Field::Id, Field::Name, Field::Address],
    }
}

impl ActionView {
    /// The variant of the action.
    pub open spec fn kind(self) -> ActionKind {
        match self {
            ActionView::CreateContract { .. } => ActionKind::CreateContract,
            ActionView::DeleteContract { .. } => ActionKind::DeleteContract,
            ActionView::ExecuteContract { .. } => ActionKind::ExecuteContract,
            ActionView::CreateContractRegistry { .. } => ActionKind::CreateContractRegistry,
            ActionView::DeleteContractRegistry { .. } => ActionKind::DeleteContractRegistry,
            ActionView::UpdateContractRegistryOwners { .. } =>
                ActionKind::UpdateContractRegistryOwners,
            ActionView::CreateNamespaceRegistry { .. } => ActionKind::CreateNamespaceRegistry,
            ActionView::DeleteNamespaceRegistry { .. } => ActionKind::DeleteNamespaceRegistry,
            ActionView::UpdateNamespaceRegistryOwners { .. } =>
                ActionKind::UpdateNamespaceRegistryOwners,
            ActionView::CreateNamespaceRegistryPermission { .. } =>
                ActionKind::CreateNamespaceRegistryPermission,
            ActionView::DeleteNamespaceRegistryPermission { .. } =>
                ActionKind::DeleteNamespaceRegistryPermission,
            ActionView::CreateSmartPermission { .. } => ActionKind::CreateSmartPermission,
            ActionView::UpdateSmartPermission { .. } => ActionKind::UpdateSmartPermission,
            ActionView::DeleteSmartPermission { .. } => ActionKind::DeleteSmartPermission,
            ActionView::CreateAccount { .. } => ActionKind::CreateAccount,
            ActionView::UpdateAccount { .. } => ActionKind::UpdateAccount,
            ActionView::CreateOrganization { .. } => ActionKind::CreateOrganization,
            ActionView::UpdateOrganization { .. } => ActionKind::UpdateOrganization,
        }
    }

    /// The number of elements held in `field`: characters of a string, items
    /// of a list, bytes of a buffer. A field that the variant does not have
    /// holds none.
    pub open spec fn field_len(self, field: Field) -> nat {
        match (self, field) {
            (ActionView::CreateContract { name, .. }, Field::Name) => name.len(),
            (ActionView::CreateContract { version, .. }, Field::Version) => version.len(),
            (ActionView::CreateContract { inputs, .. }, Field::Inputs) => inputs.len(),
            (ActionView::CreateContract { outputs, .. }, Field::Outputs) => outputs.len(),
            (ActionView::CreateContract { contract, .. }, Field::Contract) => contract.len(),
            (ActionView::DeleteContract { name, .. }, Field::Name) => name.len(),
            (ActionView::DeleteContract { version, .. }, Field::Version) => version.len(),
            (ActionView::ExecuteContract { name, .. }, Field::Name) => name.len(),
            (ActionView::ExecuteContract { version, .. }, Field::Version) => version.len(),
            (ActionView::ExecuteContract { inputs, .. }, Field::Inputs) => inputs.len(),
            (ActionView::ExecuteContract { outputs, .. }, Field::Outputs) => outputs.len(),
            (ActionView::ExecuteContract { payload, .. }, Field::Payload) => payload.len(),
            (ActionView::CreateContractRegistry { name, .. }, Field::Name) => name.len(),
            (ActionView::CreateContractRegistry { owners, .. }, Field::Owners) => owners.len(),
            (ActionView::DeleteContractRegistry { name, .. }, Field::Name) => name.len(),
            (ActionView::UpdateContractRegistryOwners { name, .. }, Field::Name) => name.len(),
            (ActionView::UpdateContractRegistryOwners { owners, .. }, Field::Owners) =>
                owners.len(),
            (ActionView::CreateNamespaceRegistry { namespace, .. }, Field::Namespace) =>
                namespace.len(),
            (ActionView::CreateNamespaceRegistry { owners, .. }, Field::Owners) => owners.len(),
            (ActionView::DeleteNamespaceRegistry { namespace, .. }, Field::Namespace) =>
                namespace.len(),
            (ActionView::UpdateNamespaceRegistryOwners { namespace, .. }, Field::Namespace) =>
                namespace.len(),
            (ActionView::UpdateNamespaceRegistryOwners { owners, .. }, Field::Owners) =>
                owners.len(),
            (ActionView::CreateNamespaceRegistryPermission { namespace, .. }, Field::Namespace) =>
                namespace.len(),
            (
                ActionView::CreateNamespaceRegistryPermission { contract_name, .. },
                Field::ContractName,
            ) =>
                contract_name.len(),
            (ActionView::DeleteNamespaceRegistryPermission { namespace, .. }, Field::Namespace) =>
                namespace.len(),
            (
                ActionView::DeleteNamespaceRegistryPermission { contract_name, .. },
                Field::ContractName,
            ) =>
                contract_name.len(),
            (ActionView::CreateSmartPermission { org_id, .. }, Field::OrgId) => org_id.len(),
            (ActionView::CreateSmartPermission { name, .. }, Field::Name) => name.len(),
            (ActionView::CreateSmartPermission { function, .. }, Field::Function) => function.len(),
            (ActionView::UpdateSmartPermission { org_id, .. }, Field::OrgId) => org_id.len(),
            (ActionView::UpdateSmartPermission { name, .. }, Field::Name) => name.len(),
            (ActionView::UpdateSmartPermission { function, .. }, Field::Function) => function.len(),
            (ActionView::DeleteSmartPermission { org_id, .. }, Field::OrgId) => org_id.len(),
            (ActionView::DeleteSmartPermission { name, .. }, Field::Name) => name.len(),
            (ActionView::CreateAccount { org_id, .. }, Field::OrgId) => org_id.len(),
            (ActionView::CreateAccount { public_key, .. }, Field::PublicKey) => public_key.len(),
            (ActionView::UpdateAccount { org_id, .. }, Field::OrgId) => org_id.len(),
            (ActionView::UpdateAccount { public_key, .. }, Field::PublicKey) => public_key.len(),
            (ActionView::CreateOrganization { id, .. }, Field::Id) => id.len(),
            (ActionView::CreateOrganization { name, .. }, Field::Name) => name.len(),
            (ActionView::CreateOrganization { address, .. }, Field::Address) => address.len(),
            (ActionView::UpdateOrganization { id, .. }, Field::Id) => id.len(),
            (ActionView::UpdateOrganization { name, .. }, Field::Name) => name.len(),
            (ActionView::UpdateOrganization { address, .. }, Field::Address) => address.len(),
            _ => 0,
        }
    }

    /// The fields this action must carry non-empty, in check order.
    pub open spec fn required(self) -> Seq<Field> {
        required_fields(self.kind())
    }

    /// Position `i` of the required fields is the first one that is empty.
    pub open spec fn first_empty_at(self, i: int) -> bool {
        &&& 0 <= i < self.required().len()
        &&& self.field_len(self.required()[i]) == 0
        &&& forall|j: int| 0 <= j < i ==> self.field_len(#[trigger] self.required()[j]) > 0
    }

    /// Every required field of the action is non-empty.
    pub open spec fn well_formed(self) -> bool {
        forall|i: int|
            0 <= i < self.required().len() ==> self.field_len(#[trigger] self.required()[i]) > 0
    }
}

/// A copy of a list of strings, equal to it element by element.
fn clone_strings(list: &Vec<String>) -> (copy: Vec<String>)
    ensures
        copy.deep_view() == list.deep_view(),
{
    let mut copy: Vec<String> = Vec::new();
    let mut i: usize = 0;
    while i < list.len()
        invariant
            i <= list.len(),
            copy.len() == i,
            forall|j: int| 0 <= j < i ==> copy[j]@ == list[j]@,
        decreases list.len() - i,
    {
        copy.push(list[i].clone());
        i += 1;
    }
    assert(copy.deep_view() =~= list.deep_view());
    copy
}

impl Clone for Action {
    fn clone(&self) -> (copy: Self)
        ensures
            copy@ == self@,
    {
        match self {
            Action::CreateContract {
                name,
                version,
                inputs,
                outputs,
                contract,
            } => Action::CreateContract {
                name: name.clone(),
                version: version.clone(),
                inputs: clone_strings(inputs),
                outputs: clone_strings(outputs),
                contract: contract.clone(),
            },
            Action::DeleteContract { name, version } => Action::DeleteContract {
                name: name.clone(),
                version: version.clone(),
            },
            Action::ExecuteContract {
                name,
                version,
                inputs,
                outputs,
                payload,
            } => Action::ExecuteContract {
                name: name.clone(),
                version: version.clone(),
                inputs: clone_strings(inputs),
                outputs: clone_strings(outputs),
                payload: payload.clone(),
            },
            Action::CreateContractRegistry { name, owners } => Action::CreateContractRegistry {
                name: name.clone(),
                owners: clone_strings(owners),
            },
            Action::DeleteContractRegistry { name } => Action::DeleteContractRegistry {
                name: name.clone(),
            },
            Action::UpdateContractRegistryOwners {
                name,
                owners,
            } => Action::UpdateContractRegistryOwners {
                name: name.clone(),
                owners: clone_strings(owners),
            },
            Action::CreateNamespaceRegistry {
                namespace,
                owners,
            } => Action::CreateNamespaceRegistry {
                namespace: namespace.clone(),
                owners: clone_strings(owners),
            },
            Action::DeleteNamespaceRegistry { namespace } => Action::DeleteNamespaceRegistry {
                namespace: namespace.clone(),
            },
            Action::UpdateNamespaceRegistryOwners {
                namespace,
                owners,
            } => Action::UpdateNamespaceRegistryOwners {
                namespace: namespace.clone(),
                owners: clone_strings(owners),
            },
            Action::CreateNamespaceRegistryPermission {
                namespace,
                contract_name,
                read,
                write,
            } => Action::CreateNamespaceRegistryPermission {
                namespace: namespace.clone(),
                contract_name: contract_name.clone(),
                read: *read,
                write: *write,
            },
            Action::DeleteNamespaceRegistryPermission {
                namespace,
                contract_name,
            } => Action::DeleteNamespaceRegistryPermission {
                namespace: namespace.clone(),
                contract_name: contract_name.clone(),
            },
            Action::CreateSmartPermission {
                org_id,
                name,
                function,
            } => Action::CreateSmartPermission {
                org_id: org_id.clone(),
                name: name.clone(),
                function: function.clone(),
            },
            Action::UpdateSmartPermission {
                org_id,
                name,
                function,
            } => Action::UpdateSmartPermission {
                org_id: org_id.clone(),
                name: name.clone(),
                function: function.clone(),
            },
            Action::DeleteSmartPermission { org_id, name } => Action::DeleteSmartPermission {
                org_id: org_id.clone(),
                name: name.clone(),
            },
            Action::CreateAccount { org_id, public_key } => Action::CreateAccount {
                org_id: org_id.clone(),
                public_key: public_key.clone(),
            },
            Action::UpdateAccount { org_id, public_key } => Action::UpdateAccount {
                org_id: org_id.clone(),
                public_key: public_key.clone(),
            },
            Action::CreateOrganization { id, name, address } => Action::CreateOrganization {
                id: id.clone(),
                name: name.clone(),
                address: address.clone(),
            },
            Action::UpdateOrganization { id, name, address } => Action::UpdateOrganization {
                id: id.clone(),
                name: name.clone(),
                address: address.clone(),
            },
        }
    }
}

impl Action {
    /// The variant of this action.
    pub fn kind(&self) -> (k: ActionKind)
        ensures
            k == self@.kind(),
    {
        match self {
            Action::CreateContract { .. } => ActionKind::CreateContract,
            Action::DeleteContract { .. } => ActionKind::DeleteContract,
            Action::ExecuteContract { .. } => ActionKind::ExecuteContract,
            Action::CreateContractRegistry { .. } => ActionKind::CreateContractRegistry,
            Action::DeleteContractRegistry { .. } => ActionKind::DeleteContractRegistry,
            Action::UpdateContractRegistryOwners { .. } => ActionKind::UpdateContractRegistryOwners,
            Action::CreateNamespaceRegistry { .. } => ActionKind::CreateNamespaceRegistry,
            Action::DeleteNamespaceRegistry { .. } => ActionKind::DeleteNamespaceRegistry,
            Action::UpdateNamespaceRegistryOwners { .. } =>
                ActionKind::UpdateNamespaceRegistryOwners,
            Action::CreateNamespaceRegistryPermission { .. } =>
                ActionKind::CreateNamespaceRegistryPermission,
            Action::DeleteNamespaceRegistryPermission { .. } =>
                ActionKind::DeleteNamespaceRegistryPermission,
            Action::CreateSmartPermission { .. } => ActionKind::CreateSmartPermission,
            Action::UpdateSmartPermission { .. } => ActionKind::UpdateSmartPermission,
            Action::DeleteSmartPermission { .. } => ActionKind::DeleteSmartPermission,
            Action::CreateAccount { .. } => ActionKind::CreateAccount,
            Action::UpdateAccount { .. } => ActionKind::UpdateAccount,
            Action::CreateOrganization { .. } => ActionKind::CreateOrganization,
            Action::UpdateOrganization { .. } => ActionKind::UpdateOrganization,
        }
    }
}

} // verus!
