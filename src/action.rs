use vstd::prelude::*;

verus! {

/// A call on a native account-model chain.
#[derive(Clone, Debug, PartialEq, Eq)]
pub struct NearAction {
    pub method_name: String,
    /// Account of the called contract.
    pub contract_id: String,
    /// Compute budget, in gas units.
    pub gas_attached: u64,
    /// Attached value, in yoctoNEAR.
    pub deposit_attached: u128,
}

/// A contract call on an EVM-style chain.
#[derive(Clone, Debug, PartialEq, Eq)]
pub struct EvmAction {
    pub method_name: String,
    /// Address of the called contract.
    pub contract_address: [u8; 20],
    pub gas_limit: u128,
    /// Value in wei.
    pub value: u128,
}

/// An action tagged with the chain family it targets.
#[derive(Clone, Debug, PartialEq, Eq)]
pub enum Action {
    NEAR(NearAction),
    EVM(EvmAction),
}

/// Who sends the transaction, and the anchoring values an account-state
/// provider supplies for it.
#[derive(Clone, Debug, PartialEq, Eq)]
pub struct Origin {
    pub account_id: String,
    pub public_key: Vec<u8>,
    pub nonce: u64,
    pub block_hash: [u8; 32],
    pub chain_id: u64,
}

/// A function call inside a native transaction.
#[derive(Clone, Debug, PartialEq, Eq)]
pub struct FunctionCall {
    pub method_name: String,
    pub args: Vec<u8>,
    pub gas: u64,
    pub deposit: u128,
}

/// Unsigned transaction of the native account model.
#[derive(Clone, Debug, PartialEq, Eq)]
pub struct NearTransaction {
    pub signer_id: String,
    pub signer_public_key: Vec<u8>,
    pub nonce: u64,
    pub receiver_id: String,
    pub block_hash: [u8; 32],
    pub actions: Vec<FunctionCall>,
}

/// Unsigned EVM-style transaction.
#[derive(Clone, Debug, PartialEq, Eq)]
pub struct EvmTransaction {
    pub to: [u8; 20],
    pub value: u128,
    pub gas_limit: u128,
    pub call_data: Vec<u8>,
    pub chain_id: u64,
}

/// A transaction ready to be signed, in the shape of its chain family.
#[derive(Clone, Debug, PartialEq, Eq)]
pub enum UnsignedTransaction {
    Near(NearTransaction),
    Evm(EvmTransaction),
}

/// Mathematical model of [`NearAction`].
pub struct NearActionView {
    pub method_name: Seq<char>,
    pub contract_id: Seq<char>,
    pub gas_attached: u64,
    pub deposit_attached: u128,
}

/// Mathematical model of [`EvmAction`].
pub struct EvmActionView {
    pub method_name: Seq<char>,
    pub contract_address: [u8; 20],
    pub gas_limit: u128,
    pub value: u128,
}

/// Mathematical model of [`Action`].
pub enum ActionView {
    NEAR(NearActionView),
    EVM(EvmActionView),
}

/// Mathematical model of [`Origin`].
pub struct OriginView {
    pub account_id: Seq<char>,
    pub public_key: Seq<u8>,
    pub nonce: u64,
    pub block_hash: [u8; 32],
    pub chain_id: u64,
}

/// Mathematical model of [`FunctionCall`].
pub struct FunctionCallView {
    pub method_name: Seq<char>,
    pub args: Seq<u8>,
    pub gas: u64,
    pub deposit: u128,
}

/// Mathematical model of [`NearTransaction`].
pub struct NearTransactionView {
    pub signer_id: Seq<char>,
    pub signer_public_key: Seq<u8>,
    pub nonce: u64,
    pub receiver_id: Seq<char>,
    pub block_hash: [u8; 32],
    pub actions: Seq<FunctionCallView>,
}

/// Mathematical model of [`EvmTransaction`].
pub struct EvmTransactionView {
    pub to: [u8; 20],
    pub value: u128,
    pub gas_limit: u128,
    pub call_data: Seq<u8>,
    pub chain_id: u64,
}

/// Mathematical model of [`UnsignedTransaction`].
pub enum UnsignedTransactionView {
    Near(NearTransactionView),
    Evm(EvmTransactionView),
}

impl View for NearAction {
    type V = NearActionView;

    open spec fn view(&self) -> NearActionView {
        NearActionView {
            method_name: self.method_name@,
            contract_id: self.contract_id@,
            gas_attached: self.gas_attached,
            deposit_attached: self.deposit_attached,
        }
    }
}

impl View for EvmAction {
    type V = EvmActionView;

    open spec fn view(&self) -> EvmActionView {
        EvmActionView {
            method_name: self.method_name@,
            contract_address: self.contract_address,
            gas_limit: self.gas_limit,
            value: self.value,
        }
    }
}

impl View for Action {
    type V = ActionView;

    open spec fn view(&self) -> ActionView {
        match self {
            Action::NEAR(a) => ActionView::NEAR(a@),
            Action::EVM(a) => ActionView::EVM(a@),
        }
    }
}

impl View for Origin {
    type V = OriginView;

    open spec fn view(&self) -> OriginView {
        OriginView {
            account_id: self.account_id@,
            public_key: self.public_key@,
            nonce: self.nonce,
            block_hash: self.block_hash,
            chain_id: self.chain_id,
        }
    }
}

impl View for FunctionCall {
    type V = FunctionCallView;

    open spec fn view(&self) -> FunctionCallView {
        FunctionCallView {
            method_name: self.method_name@,
            args: self.args@,
            gas: self.gas,
            deposit: self.deposit,
        }
    }
}

impl View for NearTransaction {
    type V = NearTransactionView;

    open spec fn view(&self) -> NearTransactionView {
        NearTransactionView {
            signer_id: self.signer_id@,
            signer_public_key: self.signer_public_key@,
            nonce: self.nonce,
            receiver_id: self.receiver_id@,
            block_hash: self.block_hash,
            actions: self.actions@.map_values(|c: FunctionCall| c@),
        }
    }
}

impl View for EvmTransaction {
    type V = EvmTransactionView;

    open spec fn view(&self) -> EvmTransactionView {
        EvmTransactionView {
            to: self.to,
            value: self.value,
            gas_limit: self.gas_limit,
            call_data: self.call_data@,
            chain_id: self.chain_id,
        }
    }
}

impl View for UnsignedTransaction {
    type V = UnsignedTransactionView;

    open spec fn view(&self) -> UnsignedTransactionView {
        match self {
            UnsignedTransaction::Near(t) => UnsignedTransactionView::Near(t@),
            UnsignedTransaction::Evm(t) => UnsignedTransactionView::Evm(t@),
        }
    }
}

/// The native transaction for `action`: one function call, sent by the
/// origin to the action's contract, anchored at the origin's nonce and block.
pub open spec fn near_transaction_of(
    action: NearActionView,
    args: Seq<u8>,
    origin: OriginView,
) -> NearTransactionView {
    NearTransactionView {
        signer_id: origin.account_id,
        signer_public_key: origin.public_key,
        nonce: origin.nonce,
        receiver_id: action.contract_id,
        block_hash: origin.block_hash,
        actions: seq![
            FunctionCallView {
                method_name: action.method_name,
                args: args,
                gas: action.gas_attached,
                deposit: action.deposit_attached,
            },
        ],
    }
}

/// The EVM-style transaction for `action`, whose call data is the encoded
/// call `args`, on the origin's chain.
pub open spec fn evm_transaction_of(
    action: EvmActionView,
    args: Seq<u8>,
    origin: OriginView,
) -> EvmTransactionView {
    EvmTransactionView {
        to: action.contract_address,
        value: action.value,
        gas_limit: action.gas_limit,
        call_data: args,
        chain_id: origin.chain_id,
    }
}

/// The canonical unsigned transaction for `action` sent from `origin`.
pub open spec fn assembled(action: ActionView, args: Seq<u8>, origin: OriginView) -> UnsignedTransactionView {
    match action {
        ActionView::NEAR(a) => UnsignedTransactionView::Near(near_transaction_of(a, args, origin)),
        ActionView::EVM(a) => UnsignedTransactionView::Evm(evm_transaction_of(a, args, origin)),
    }
}

/// A copy of `b`.
pub(crate) fn copy_bytes(b: &Vec<u8>) -> (r: Vec<u8>)
    ensures
        r@ == b@,
{
    let r = b.clone();
    assert(r@ =~= b@);
    r
}

impl NearAction {
    /// Builds the native transaction for this call.
    pub fn assemble(&self, args: &Vec<u8>, origin: &Origin) -> (r: NearTransaction)
        ensures
            r@ == near_transaction_of(self@, args@, origin@),
    {
        let call = FunctionCall {
            method_name: self.method_name.clone(),
            args: copy_bytes(args),
            gas: self.gas_attached,
            deposit: self.deposit_attached,
        };
        let mut actions: Vec<FunctionCall> = Vec::new();
        actions.push(call);
        let r = NearTransaction {
            signer_id: origin.account_id.clone(),
            signer_public_key: copy_bytes(&origin.public_key),
            nonce: origin.nonce,
            receiver_id: self.contract_id.clone(),
            block_hash: origin.block_hash,
            actions,
        };
        assert(r@.actions =~= near_transaction_of(self@, args@, origin@).actions);
        r
    }
}

impl EvmAction {
    /// Builds the EVM-style transaction for this call.
    pub fn assemble(&self, args: &Vec<u8>, origin: &Origin) -> (r: EvmTransaction)
        ensures
            r@ == evm_transaction_of(self@, args@, origin@),
    {
        EvmTransaction {
            to: self.contract_address,
            value: self.value,
            gas_limit: self.gas_limit,
            call_data: copy_bytes(args),
            chain_id: origin.chain_id,
        }
    }
}

impl Action {
    /// Maps the action to the canonical unsigned transaction of its chain
    /// family. Pure: no value is drawn from anywhere but the arguments.
    pub fn assemble(&self, args: &Vec<u8>, origin: &Origin) -> (r: UnsignedTransaction)
        ensures
            r@ == assembled(self@, args@, origin@),
    {
        match self {
            Action::NEAR(a) => UnsignedTransaction::Near(a.assemble(args, origin)),
            Action::EVM(a) => UnsignedTransaction::Evm(a.assemble(args, origin)),
        }
    }
}

} // verus!
