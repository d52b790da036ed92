//! Building transactions.
use vstd::prelude::*;

use crate::tx::history::{goes_on, passes_on};
use crate::types::{Context, Error, Identifier, SecretKey, Slate, Uuid, VersionInfo};
use crate::wallet::{unborrowed, Call, Wallet, WalletBackend};

verus! {

/// The bytes of the id of a slate for tests: all but the last are fixed.
pub open spec fn test_slate_id_bytes(count: u8) -> Seq<u8> {
    seq![4, 54, 67, 12, 43, 2, 98, 76, 32, 50, 87, 5, 1, 33, 43, count]
}

/// The id of a slate for tests.
fn test_slate_id(count: u8) -> (id: Uuid)
    ensures
        id@ == test_slate_id_bytes(count),
{
    let bytes: [u8; 16] = [4, 54, 67, 12, 43, 2, 98, 76, 32, 50, 87, 5, 1, 33, 43, count];
    assert(bytes@ =~= test_slate_id_bytes(count));
    Uuid::from_slice(&bytes).unwrap()
}

/// The version of the block header on a slate: the seventh where the consensus rules have it,
/// else the sixth where they have that, else what a blank slate has.
pub open spec fn header_version(blank: u16, version_6: bool, version_7: bool) -> u16 {
    if version_7 {
        7
    } else if version_6 {
        6
    } else {
        blank
    }
}

/// A blank slate, filled in for an amount at a height.
pub open spec fn filled_slate<B: WalletBackend>(
    blank: Slate<B>,
    amount: u64,
    height: u64,
    ttl_blocks: Option<u64>,
    test_id: Option<Uuid>,
    version_6: bool,
    version_7: bool,
) -> Slate<B> {
    Slate {
        id: match test_id {
            Some(id) => id,
            None => blank.id,
        },
        amount,
        height,
        lock_height: 0,
        ttl_cutoff_height: match ttl_blocks {
            Some(blocks) => Some((height + blocks) as u64),
            None => blank.ttl_cutoff_height,
        },
        version_info: VersionInfo {
            block_header_version: header_version(
                blank.version_info.block_header_version,
                version_6,
                version_7,
            ),
        },
        ..blank
    }
}

/// Fills in a blank slate. Its lock height is 0, so that the kernel will be a plain one.
pub fn fill_slate<B: WalletBackend>(
    blank: Slate<B>,
    amount: u64,
    height: u64,
    ttl_blocks: Option<u64>,
    test_id: Option<Uuid>,
    version_6: bool,
    version_7: bool,
) -> (slate: Slate<B>)
    requires
        ttl_blocks matches Some(blocks) ==> height + blocks <= u64::MAX,
    ensures
        slate == filled_slate(blank, amount, height, ttl_blocks, test_id, version_6, version_7),
{
    let mut slate = blank;
    if let Some(blocks) = ttl_blocks {
        slate.ttl_cutoff_height = Some(height + blocks);
    }
    if let Some(id) = test_id {
        slate.id = id;
    }
    slate.amount = amount;
    slate.height = height;
    if version_6 {
        slate.version_info.block_header_version = 6;
    }
    if version_7 {
        slate.version_info.block_header_version = 7;
    }
    slate.lock_height = 0;
    slate
}

/// What `new_tx_slate` asks of the wallet, and what it makes of the replies.
pub open spec fn new_tx_slate_run<B: WalletBackend>(
    history: Seq<Call<B>>,
    at: int,
    amount: u64,
    num_participants: usize,
    use_test_rng: bool,
    ttl_blocks: Option<u64>,
    count: u8,
    new_count: u8,
    result: Result<Slate<B>, Error>,
) -> bool {
    &&& history.len() > at
    &&& history[at] matches Call::GetChainTip { reply: tip }
    &&& match tip {
        Err(e) => {
            &&& history.len() == at + 1
            &&& new_count == count
            &&& result == Err::<Slate<B>, Error>(e)
        },
        Ok(height) => {
            &&& history.len() > at + 1
            &&& history[at + 1] matches Call::BlankSlate { num_participants: n, reply: blank }
            &&& n == num_participants
            &&& if ttl_blocks matches Some(blocks) && height + blocks > u64::MAX {
                &&& history.len() == at + 2
                &&& new_count == count
                &&& result == Err::<Slate<B>, Error>(Error::TtlOutOfRange)
            } else {
                &&& history.len() == at + 4
                &&& history[at + 2] matches Call::ValidHeaderVersion {
                    height: h6,
                    version: v6,
                    reply: version_6,
                }
                &&& h6 == height && v6 == 6
                &&& history[at + 3] matches Call::ValidHeaderVersion {
                    height: h7,
                    version: v7,
                    reply: version_7,
                }
                &&& h7 == height && v7 == 7
                &&& new_count == if use_test_rng {
                    count + 1
                } else {
                    count as int
                }
                &&& result matches Ok(slate)
                &&& use_test_rng ==> slate.id@ == test_slate_id_bytes(count)
                &&& slate == filled_slate(
                    blank,
                    amount,
                    height,
                    ttl_blocks,
                    if use_test_rng {
                        Some(slate.id)
                    } else {
                        None
                    },
                    version_6,
                    version_7,
                )
            }
        },
    }
}

/// Makes a slate for a new transaction. Anyone who takes part in it may do so. A slate for
/// tests takes its id from a counter, which goes up by one.
pub fn new_tx_slate<B: WalletBackend>(
    wallet: &mut Wallet<B>,
    amount: u64,
    num_participants: usize,
    use_test_rng: bool,
    ttl_blocks: Option<u64>,
    slate_counter: &mut u8,
) -> (result: Result<Slate<B>, Error>)
    requires
        old(wallet).is_genuine(),
        use_test_rng ==> *old(slate_counter) < u8::MAX,
    ensures
        goes_on(*old(wallet), *final(wallet)),
        new_tx_slate_run(
            final(wallet).history(),
            old(wallet).history().len() as int,
            amount,
            num_participants,
            use_test_rng,
            ttl_blocks,
            *old(slate_counter),
            *final(slate_counter),
            result,
        ),
{
    let current_height: u64 = match wallet.get_chain_tip() {
        Ok(height) => height,
        Err(e) => {
            return Err(e);
        },
    };
    let blank = wallet.blank_slate(num_participants);
    if let Some(blocks) = ttl_blocks {
        if blocks > u64::MAX - current_height {
            return Err(Error::TtlOutOfRange);
        }
    }
    let mut test_id: Option<Uuid> = None;
    if use_test_rng {
        test_id = Some(test_slate_id(*slate_counter));
        *slate_counter = *slate_counter + 1;
    }
    let version_6 = wallet.valid_header_version(current_height, 6);
    let version_7 = wallet.valid_header_version(current_height, 7);
    Ok(fill_slate(blank, amount, current_height, ttl_blocks, test_id, version_6, version_7))
}

/// What `estimate_send_tx` asks of the wallet, and what it makes of the replies.
pub open spec fn estimate_run<B: WalletBackend>(
    history: Seq<Call<B>>,
    at: int,
    mask: Option<SecretKey>,
    amount: u64,
    minimum_confirmations: u64,
    max_outputs: usize,
    num_change_outputs: usize,
    use_all: bool,
    parent: Identifier,
    result: Result<(u64, u64), Error>,
) -> bool {
    &&& history.len() > at
    &&& history[at] matches Call::GetChainTip { reply: tip }
    &&& match tip {
        Err(e) => history.len() == at + 1 && result == Err::<(u64, u64), Error>(e),
        Ok(height) => {
            &&& history.len() > at + 1
            &&& history[at + 1] matches Call::RefreshOutputs {
                keychain_mask,
                parent_key_id,
                update_all,
                reply: refreshed,
            }
            &&& keychain_mask == mask && parent_key_id == parent && !update_all
            &&& match refreshed {
                Err(e) => history.len() == at + 2 && result == Err::<(u64, u64), Error>(e),
                Ok(()) => {
                    &&& history.len() == at + 3
                    &&& history[at + 2] matches Call::SelectCoinsAndFee {
                        amount: a,
                        current_height,
                        minimum_confirmations: c,
                        max_outputs: m,
                        num_change_outputs: n,
                        selection_strategy_is_use_all,
                        parent_key_id: p,
                        reply: selected,
                    }
                    &&& a == amount && current_height == height && c == minimum_confirmations
                    &&& m == max_outputs && n == num_change_outputs
                    &&& selection_strategy_is_use_all == use_all && p == parent
                    &&& match selected {
                        Err(e) => result == Err::<(u64, u64), Error>(e),
                        Ok(s) => result == Ok::<(u64, u64), Error>((s.total, s.fee)),
                    }
                },
            }
        },
    }
}

/// Estimates what a payment would lock, in all, and its fee, without making a transaction.
pub fn estimate_send_tx<B: WalletBackend>(
    wallet: &mut Wallet<B>,
    keychain_mask: Option<&SecretKey>,
    amount: u64,
    minimum_confirmations: u64,
    max_outputs: usize,
    num_change_outputs: usize,
    selection_strategy_is_use_all: bool,
    parent_key_id: &Identifier,
) -> (result: Result<(u64, u64), Error>)
    requires
        old(wallet).is_genuine(),
    ensures
        goes_on(*old(wallet), *final(wallet)),
        estimate_run(
            final(wallet).history(),
            old(wallet).history().len() as int,
            unborrowed(keychain_mask),
            amount,
            minimum_confirmations,
            max_outputs,
            num_change_outputs,
            selection_strategy_is_use_all,
            *parent_key_id,
            result,
        ),
{
    let current_height: u64 = match wallet.get_chain_tip() {
        Ok(height) => height,
        Err(e) => {
            return Err(e);
        },
    };
    match wallet.refresh_outputs(keychain_mask, parent_key_id, false) {
        Ok(()) => {},
        Err(e) => {
            return Err(e);
        },
    }
    match wallet.select_coins_and_fee(
        amount,
        current_height,
        minimum_confirmations,
        max_outputs,
        num_change_outputs,
        selection_strategy_is_use_all,
        parent_key_id,
    ) {
        Ok(selection) => Ok((selection.total, selection.fee)),
        Err(e) => Err(e),
    }
}

/// What the second round comes to: a key chain is asked for, and the partial signature put on
/// the slate.
pub open spec fn round_2_run<B: WalletBackend, T>(
    history: Seq<Call<B>>,
    at: int,
    mask: Option<SecretKey>,
    slate: Slate<B>,
    context: Context<B>,
    id: usize,
    new_slate: Slate<B>,
    result: Result<T, Error>,
) -> bool {
    &&& history.len() > at
    &&& history[at] matches Call::Keychain { keychain_mask, reply }
    &&& keychain_mask == mask
    &&& match reply {
        Err(e) => history.len() == at + 1 && new_slate == slate && result == Err::<T, Error>(e),
        Ok(key) => {
            &&& history.len() == at + 2
            &&& history[at + 1] matches Call::FillRound2 {
                before,
                after,
                keychain,
                sec_key,
                sec_nonce,
                participant_id,
                reply,
            }
            &&& before == slate
            &&& after == new_slate
            &&& keychain == key
            &&& sec_key == context.sec_key
            &&& sec_nonce == context.sec_nonce
            &&& participant_id == id
            &&& passes_on(reply, result)
        },
    }
}

/// Asks for a key chain, and puts the partial signature of a party on a slate.
fn run_round_2<B: WalletBackend>(
    wallet: &mut Wallet<B>,
    keychain_mask: Option<&SecretKey>,
    slate: &mut Slate<B>,
    context: &Context<B>,
    participant_id: usize,
) -> (result: Result<(), Error>)
    requires
        old(wallet).is_genuine(),
    ensures
        goes_on(*old(wallet), *final(wallet)),
        round_2_run(
            final(wallet).history(),
            old(wallet).history().len() as int,
            unborrowed(keychain_mask),
            *old(slate),
            *context,
            participant_id,
            *final(slate),
            result,
        ),
{
    let keychain = match wallet.keychain(keychain_mask) {
        Ok(k) => k,
        Err(e) => {
            return Err(e);
        },
    };
    wallet.fill_round_2(slate, &keychain, &context.sec_key, &context.sec_nonce, participant_id)
}

/// What both rounds of a party come to. The first round changes the secret key of the party; the
/// second is left to the other party by the one that began the exchange.
pub open spec fn rounds_run<B: WalletBackend>(
    history: Seq<Call<B>>,
    at: int,
    mask: Option<SecretKey>,
    slate: Slate<B>,
    context: Context<B>,
    round_1_id: usize,
    round_2_id: usize,
    message: Option<String>,
    is_initiator: bool,
    use_test_rng: bool,
    new_slate: Slate<B>,
    result: Result<Context<B>, Error>,
) -> bool {
    &&& history.len() > at
    &&& history[at] matches Call::Keychain { keychain_mask, reply }
    &&& keychain_mask == mask
    &&& match reply {
        Err(e) => history.len() == at + 1 && new_slate == slate && result == Err::<
            Context<B>,
            Error,
        >(e),
        Ok(key) => {
            &&& history.len() > at + 1
            &&& history[at + 1] matches Call::FillRound1 {
                before,
                after,
                keychain,
                sec_key_before,
                sec_key_after,
                sec_nonce,
                participant_id,
                message: text,
                use_test_rng: test_rng,
                reply,
            }
            &&& before == slate
            &&& keychain == key
            &&& sec_key_before == context.sec_key
            &&& sec_nonce == context.sec_nonce
            &&& participant_id == round_1_id
            &&& text == message
            &&& test_rng == use_test_rng
            &&& match reply {
                Err(e) => history.len() == at + 2 && new_slate == after && result == Err::<
                    Context<B>,
                    Error,
                >(e),
                Ok(()) => {
                    let filled = Context { sec_key: sec_key_after, ..context };
                    if is_initiator {
                        history.len() == at + 2 && new_slate == after && result == Ok::<
                            Context<B>,
                            Error,
                        >(filled)
                    } else {
                        &&& round_2_run(
                            history,
                            at + 2,
                            mask,
                            after,
                            filled,
                            round_2_id,
                            new_slate,
                            result,
                        )
                        &&& result matches Ok(c) ==> c == filled
                    }
                },
            }
        },
    }
}

/// Runs the rounds of a party on a slate.
fn run_rounds<B: WalletBackend>(
    wallet: &mut Wallet<B>,
    keychain_mask: Option<&SecretKey>,
    slate: &mut Slate<B>,
    context: Context<B>,
    round_1_id: usize,
    round_2_id: usize,
    message: Option<String>,
    is_initiator: bool,
    use_test_rng: bool,
) -> (result: Result<Context<B>, Error>)
    requires
        old(wallet).is_genuine(),
    ensures
        goes_on(*old(wallet), *final(wallet)),
        rounds_run(
            final(wallet).history(),
            old(wallet).history().len() as int,
            unborrowed(keychain_mask),
            *old(slate),
            context,
            round_1_id,
            round_2_id,
            message,
            is_initiator,
            use_test_rng,
            *final(slate),
            result,
        ),
{
    let mut context = context;
    let keychain = match wallet.keychain(keychain_mask) {
        Ok(k) => k,
        Err(e) => {
            return Err(e);
        },
    };
    match wallet.fill_round_1(
        slate,
        &keychain,
        &mut context.sec_key,
        &context.sec_nonce,
        round_1_id,
        message,
        use_test_rng,
    ) {
        Ok(()) => {},
        Err(e) => {
            return Err(e);
        },
    }
    if !is_initiator {
        match run_round_2(wallet, keychain_mask, slate, &context, round_2_id) {
            Ok(()) => {},
            Err(e) => {
                return Err(e);
            },
        }
    }
    Ok(context)
}

/// What `add_inputs_to_slate` asks of the wallet, and what it makes of the replies.
pub open spec fn add_inputs_run<B: WalletBackend>(
    history: Seq<Call<B>>,
    at: int,
    mask: Option<SecretKey>,
    slate: Slate<B>,
    min_confirmations: u64,
    outputs_limit: usize,
    change_outputs: usize,
    use_all: bool,
    parent: Identifier,
    participant_id: usize,
    message: Option<String>,
    is_initiator: bool,
    test_rng: bool,
    new_slate: Slate<B>,
    result: Result<Context<B>, Error>,
) -> bool {
    &&& history.len() > at
    &&& history[at] matches Call::RefreshOutputs {
        keychain_mask: refresh_mask,
        parent_key_id: refresh_parent,
        update_all,
        reply: refreshed,
    }
    &&& refresh_mask == mask && refresh_parent == parent && !update_all
    &&& match refreshed {
        Err(e) => {
            &&& history.len() == at + 1
            &&& new_slate == slate
            &&& result == Err::<Context<B>, Error>(e)
        },
        Ok(()) => {
            &&& history.len() > at + 1
            &&& history[at + 1] matches Call::Keychain { keychain_mask: key_mask, reply: key }
            &&& key_mask == mask
            &&& match key {
                Err(e) => {
                    &&& history.len() == at + 2
                    &&& new_slate == slate
                    &&& result == Err::<Context<B>, Error>(e)
                },
                Ok(key) => {
                    &&& history.len() > at + 2
                    &&& history[at + 2] matches Call::BuildSendTx {
                        keychain,
                        keychain_mask,
                        before,
                        after,
                        minimum_confirmations,
                        max_outputs,
                        num_change_outputs,
                        selection_strategy_is_use_all,
                        parent_key_id,
                        use_test_rng,
                        reply: built,
                    }
                    &&& keychain == key && keychain_mask == mask && before == slate
                    &&& minimum_confirmations == min_confirmations
                    &&& max_outputs == outputs_limit && num_change_outputs == change_outputs
                    &&& selection_strategy_is_use_all == use_all
                    &&& parent_key_id == parent && use_test_rng == test_rng
                    &&& match built {
                        Err(e) => {
                            &&& history.len() == at + 3
                            &&& new_slate == after
                            &&& result == Err::<Context<B>, Error>(e)
                        },
                        Ok(context) => rounds_run(
                            history,
                            at + 3,
                            mask,
                            after,
                            context,
                            participant_id,
                            participant_id,
                            message,
                            is_initiator,
                            test_rng,
                            new_slate,
                            result,
                        ),
                    }
                },
            }
        },
    }
}

/// Adds inputs to a slate, which makes the wallet the sender. The result holds the secrets of
/// the sender.
pub fn add_inputs_to_slate<B: WalletBackend>(
    wallet: &mut Wallet<B>,
    keychain_mask: Option<&SecretKey>,
    slate: &mut Slate<B>,
    minimum_confirmations: u64,
    max_outputs: usize,
    num_change_outputs: usize,
    selection_strategy_is_use_all: bool,
    parent_key_id: &Identifier,
    participant_id: usize,
    message: Option<String>,
    is_initiator: bool,
    use_test_rng: bool,
) -> (result: Result<Context<B>, Error>)
    requires
        old(wallet).is_genuine(),
    ensures
        goes_on(*old(wallet), *final(wallet)),
        add_inputs_run(
            final(wallet).history(),
            old(wallet).history().len() as int,
            unborrowed(keychain_mask),
            *old(slate),
            minimum_confirmations,
            max_outputs,
            num_change_outputs,
            selection_strategy_is_use_all,
            *parent_key_id,
            participant_id,
            message,
            is_initiator,
            use_test_rng,
            *final(slate),
            result,
        ),
{
    // The sender always refreshes the outputs first.
    match wallet.refresh_outputs(keychain_mask, parent_key_id, false) {
        Ok(()) => {},
        Err(e) => {
            return Err(e);
        },
    }
    let keychain = match wallet.keychain(keychain_mask) {
        Ok(k) => k,
        Err(e) => {
            return Err(e);
        },
    };
    let context = match wallet.build_send_tx(
        &keychain,
        keychain_mask,
        slate,
        minimum_confirmations,
        max_outputs,
        num_change_outputs,
        selection_strategy_is_use_all,
        *parent_key_id,
        use_test_rng,
    ) {
        Ok(c) => c,
        Err(e) => {
            return Err(e);
        },
    };
    run_rounds(
        wallet,
        keychain_mask,
        slate,
        context,
        participant_id,
        participant_id,
        message,
        is_initiator,
        use_test_rng,
    )
}

/// What `add_output_to_slate` asks of the wallet, and what it makes of the replies.
pub open spec fn add_output_run<B: WalletBackend>(
    history: Seq<Call<B>>,
    at: int,
    mask: Option<SecretKey>,
    slate: Slate<B>,
    parent: Identifier,
    participant_id: usize,
    message: Option<String>,
    is_initiator: bool,
    test_rng: bool,
    new_slate: Slate<B>,
    result: Result<Context<B>, Error>,
) -> bool {
    &&& history.len() > at
    &&& history[at] matches Call::BuildRecipientOutput {
        keychain_mask,
        before,
        after,
        parent_key_id,
        use_test_rng,
        reply: built,
    }
    &&& keychain_mask == mask && before == slate
    &&& parent_key_id == parent && use_test_rng == test_rng
    &&& match built {
        Err(e) => {
            &&& history.len() == at + 1
            &&& new_slate == after
            &&& result == Err::<Context<B>, Error>(e)
        },
        Ok((_, context)) => rounds_run(
            history,
            at + 1,
            mask,
            after,
            context,
            1,
            participant_id,
            message,
            is_initiator,
            test_rng,
            new_slate,
            result,
        ),
    }
}

/// Adds an output that takes the amount of a slate, which makes the wallet the receiver. The
/// result holds the secrets of the receiver, whose keys go on the slate as those of party 1.
pub fn add_output_to_slate<B: WalletBackend>(
    wallet: &mut Wallet<B>,
    keychain_mask: Option<&SecretKey>,
    slate: &mut Slate<B>,
    parent_key_id: &Identifier,
    participant_id: usize,
    message: Option<String>,
    is_initiator: bool,
    use_test_rng: bool,
) -> (result: Result<Context<B>, Error>)
    requires
        old(wallet).is_genuine(),
    ensures
        goes_on(*old(wallet), *final(wallet)),
        add_output_run(
            final(wallet).history(),
            old(wallet).history().len() as int,
            unborrowed(keychain_mask),
            *old(slate),
            *parent_key_id,
            participant_id,
            message,
            is_initiator,
            use_test_rng,
            *final(slate),
            result,
        ),
{
    let context = match wallet.build_recipient_output(
        keychain_mask,
        slate,
        *parent_key_id,
        use_test_rng,
    ) {
        Ok((_, c)) => c,
        Err(e) => {
            return Err(e);
        },
    };
    run_rounds(
        wallet,
        keychain_mask,
        slate,
        context,
        1,
        participant_id,
        message,
        is_initiator,
        use_test_rng,
    )
}

/// What `complete_tx` asks of the wallet, and what it makes of the replies.
pub open spec fn complete_run<B: WalletBackend>(
    history: Seq<Call<B>>,
    at: int,
    mask: Option<SecretKey>,
    slate: Slate<B>,
    participant_id: usize,
    context: Context<B>,
    new_slate: Slate<B>,
    result: Result<(), Error>,
) -> bool {
    &&& history.len() > at
    &&& history[at] matches Call::Keychain { keychain_mask: signing_mask, reply: signing_key }
    &&& signing_mask == mask
    &&& match signing_key {
        Err(e) => {
            &&& history.len() == at + 1
            &&& new_slate == slate
            &&& result == Err::<(), Error>(e)
        },
        Ok(signing_key) => {
            &&& history.len() > at + 1
            &&& history[at + 1] matches Call::FillRound2 {
                before: unsigned,
                after: signed,
                keychain: key,
                sec_key,
                sec_nonce,
                participant_id: id,
                reply: signing,
            }
            &&& unsigned == slate && key == signing_key && id == participant_id
            &&& sec_key == context.sec_key && sec_nonce == context.sec_nonce
            &&& match signing {
                Err(e) => {
                    &&& history.len() == at + 2
                    &&& new_slate == signed
                    &&& result == Err::<(), Error>(e)
                },
                Ok(()) => {
                    &&& history.len() > at + 2
                    &&& history[at + 2] matches Call::Keychain {
                        keychain_mask: final_mask,
                        reply: final_key,
                    }
                    &&& final_mask == mask
                    &&& match final_key {
                        Err(e) => {
                            &&& history.len() == at + 3
                            &&& new_slate == signed
                            &&& result == Err::<(), Error>(e)
                        },
                        Ok(final_key) => {
                            &&& history.len() == at + 4
                            &&& history[at + 3] matches Call::Finalize {
                                before,
                                after,
                                keychain,
                                reply,
                            }
                            &&& before == signed && after == new_slate && keychain == final_key
                            &&& passes_on(reply, result)
                        },
                    }
                },
            }
        },
    }
}

/// Completes a transaction: puts the partial signature of a party on its slate, and builds the
/// final transaction, which anyone can do at this stage.
pub fn complete_tx<B: WalletBackend>(
    wallet: &mut Wallet<B>,
    keychain_mask: Option<&SecretKey>,
    slate: &mut Slate<B>,
    participant_id: usize,
    context: &Context<B>,
) -> (result: Result<(), Error>)
    requires
        old(wallet).is_genuine(),
    ensures
        goes_on(*old(wallet), *final(wallet)),
        complete_run(
            final(wallet).history(),
            old(wallet).history().len() as int,
            unborrowed(keychain_mask),
            *old(slate),
            participant_id,
            *context,
            *final(slate),
            result,
        ),
{
    match run_round_2(wallet, keychain_mask, slate, context, participant_id) {
        Ok(()) => {},
        Err(e) => {
            return Err(e);
        },
    }
    let keychain = match wallet.keychain(keychain_mask) {
        Ok(k) => k,
        Err(e) => {
            return Err(e);
        },
    };
    wallet.finalize(slate, &keychain)
}

} // verus!
