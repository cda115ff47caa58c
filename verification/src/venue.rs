use vstd::prelude::*;
use vstd::bytes::spec_u64_to_le_bytes;
use crate::pubkey::Pubkey;
use crate::trade::SwapOrder;

verus! {

/// One account of an instruction: its address, and what the instruction may
/// do with it.
#[derive(Clone, Copy, Debug, PartialEq, Eq)]
pub struct AccountMeta {
    pub pubkey: Pubkey,
    pub is_signer: bool,
    pub is_writable: bool,
}

/// An instruction for another program.
#[derive(Clone, Debug, PartialEq, Eq)]
pub struct Instruction {
    pub program_id: Pubkey,
    pub accounts: Vec<AccountMeta>,
    pub data: Vec<u8>,
}

/// The accounts a swap needs from the venue's side, beside those a trade
/// names itself: the token program, the venue pool's authority and order
/// accounts, and the accounts of the market behind the pool.
#[derive(Clone, Copy, Debug, PartialEq, Eq)]
pub struct VenueAccounts {
    pub token_program: Pubkey,
    pub amm_authority: Pubkey,
    pub amm_open_orders: Pubkey,
    pub amm_target_orders: Pubkey,
    pub serum_program: Pubkey,
    pub serum_market: Pubkey,
    pub serum_bids: Pubkey,
    pub serum_asks: Pubkey,
    pub serum_event_queue: Pubkey,
    pub serum_coin_vault_account: Pubkey,
    pub serum_pc_vault_account: Pubkey,
    pub serum_vault_signer: Pubkey,
}

/// The bytes that open the data of the venue's swap instruction.
pub const SWAP_BASE_IN_TAG: [u8; 8] = [42, 236, 72, 162, 242, 24, 39, 84];

/// How many accounts the venue's swap instruction lists.
pub const SWAP_ACCOUNTS: usize = 18;

/// The data of the venue's swap instruction: its tag, then the amount that
/// goes in and the least that must come out, each as eight bytes with the
/// lowest first.
pub open spec fn swap_data(amount_in: u64, minimum_amount_out: u64) -> Seq<u8> {
    SWAP_BASE_IN_TAG@ + spec_u64_to_le_bytes(amount_in) + spec_u64_to_le_bytes(minimum_amount_out)
}

/// Whether the venue's swap instruction may write to the account it lists at
/// `position`: all but the token program, the pool's authority, the market's
/// program, the market's vault signer and the owner of the source account.
pub open spec fn swap_writes(position: int) -> bool {
    position != 0 && position != 2 && position != 7 && position != 14 && position != 17
}

/// Whether the account the venue's swap instruction lists at `position` has
/// to sign: only the last, the owner of the source account.
pub open spec fn swap_signs(position: int) -> bool {
    position == 17
}

/// An account the instruction only reads.
pub open spec fn readonly(pubkey: Pubkey) -> AccountMeta {
    AccountMeta { pubkey, is_signer: false, is_writable: false }
}

/// An account the instruction may write to.
pub open spec fn writable(pubkey: Pubkey) -> AccountMeta {
    AccountMeta { pubkey, is_signer: false, is_writable: true }
}

/// An account the instruction only reads and that has to sign.
pub open spec fn signer(pubkey: Pubkey) -> AccountMeta {
    AccountMeta { pubkey, is_signer: true, is_writable: false }
}

/// The accounts of the swap that carries out `order`, in the venue's order:
/// the pool's vault is the source, the trade's pool account the destination,
/// the two counter-asset vaults are the venue pool's own, and the agent signs.
pub open spec fn swap_accounts(order: SwapOrder, venue: VenueAccounts) -> Seq<AccountMeta> {
    seq![
        readonly(venue.token_program),
        writable(order.amm),
        readonly(venue.amm_authority),
        writable(venue.amm_open_orders),
        writable(venue.amm_target_orders),
        writable(order.token_a_vault),
        writable(order.token_b_vault),
        readonly(venue.serum_program),
        writable(venue.serum_market),
        writable(venue.serum_bids),
        writable(venue.serum_asks),
        writable(venue.serum_event_queue),
        writable(venue.serum_coin_vault_account),
        writable(venue.serum_pc_vault_account),
        readonly(venue.serum_vault_signer),
        writable(order.pool_vault),
        writable(order.amm_pool),
        signer(order.agent),
    ]
}

/// Calls `raydium_amm::instructions::SwapBaseIn::instruction` with the
/// eighteen addresses as its accounts, in the order in which `SwapBaseIn`
/// declares them, and hands back the accounts and the data of the
/// instruction it builds. Not verified. The contract claims what the
/// builder's source shows: it lists the accounts in the order given, marks
/// each as `swap_writes` and `swap_signs` say, and writes as data the tag
/// followed by the two amounts in little-endian bytes.
#[verifier::external_body]
fn swap_base_in(keys: [[u8; 32]; 18], amount_in: u64, minimum_amount_out: u64) -> (built: (
    Vec<AccountMeta>,
    Vec<u8>,
))
    ensures
        built.0@.len() == SWAP_ACCOUNTS,
        forall|i: int|
            0 <= i < SWAP_ACCOUNTS ==> #[trigger] built.0@[i] == (AccountMeta {
                pubkey: Pubkey { bytes: keys[i] },
                is_signer: swap_signs(i),
                is_writable: swap_writes(i),
            }),
        built.1@ == swap_data(amount_in, minimum_amount_out),
{
    let [token_program, amm, amm_authority, amm_open_orders, amm_target_orders,
        pool_coin_token_account, pool_pc_token_account, serum_program, serum_market,
        serum_bids, serum_asks, serum_event_queue, serum_coin_vault_account,
        serum_pc_vault_account, serum_vault_signer, uer_source_token_account,
        uer_destination_token_account, user_source_owner] = keys.map(Into::into);
    let built = raydium_amm::instructions::SwapBaseIn { token_program, amm, amm_authority,
        amm_open_orders, amm_target_orders, pool_coin_token_account, pool_pc_token_account,
        serum_program, serum_market, serum_bids, serum_asks, serum_event_queue,
        serum_coin_vault_account, serum_pc_vault_account, serum_vault_signer,
        uer_source_token_account, uer_destination_token_account, user_source_owner }
        .instruction(raydium_amm::instructions::SwapBaseInInstructionArgs { amount_in, minimum_amount_out });
    (built.accounts.iter().map(|meta| AccountMeta { pubkey: Pubkey { bytes: meta.pubkey.to_bytes() },
        is_signer: meta.is_signer, is_writable: meta.is_writable }).collect(), built.data)
}

/// Builds the instruction that hands `order` to the venue: addressed to the
/// program the trade named, with the venue's swap accounts and data.
pub fn swap_instruction(order: &SwapOrder, venue: &VenueAccounts) -> (instruction: Instruction)
    ensures
        instruction.program_id == order.raydium_program,
        instruction.accounts@ == swap_accounts(*order, *venue),
        instruction.data@ == swap_data(order.amount_in, order.min_amount_out),
{
    let keys: [[u8; 32]; 18] = [
        venue.token_program.bytes,
        order.amm.bytes,
        venue.amm_authority.bytes,
        venue.amm_open_orders.bytes,
        venue.amm_target_orders.bytes,
        order.token_a_vault.bytes,
        order.token_b_vault.bytes,
        venue.serum_program.bytes,
        venue.serum_market.bytes,
        venue.serum_bids.bytes,
        venue.serum_asks.bytes,
        venue.serum_event_queue.bytes,
        venue.serum_coin_vault_account.bytes,
        venue.serum_pc_vault_account.bytes,
        venue.serum_vault_signer.bytes,
        order.pool_vault.bytes,
        order.amm_pool.bytes,
        order.agent.bytes,
    ];
    let (accounts, data) = swap_base_in(keys, order.amount_in, order.min_amount_out);
    proof {
        assert(accounts@ =~= swap_accounts(*order, *venue));
    }
    Instruction { program_id: order.raydium_program, accounts, data }
}

} // verus!
