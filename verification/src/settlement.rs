use vstd::prelude::*;

use crate::schema::TxInfoModel;
use crate::utils::SalesChannels;

verus! {

/// How one purchase is settled when the crowdfunding is closed.
///
/// `claim_token` vault tokens of the purchase are delivered and
/// `refund_token` are refunded. `claim_value` and `refund_value` are the
/// base-token values of those two parts; settlement leaves them at zero and
/// the caller prices them with `unit_price`.
#[derive(Clone, Copy, PartialEq, Eq, Structural, Debug)]
pub struct TxSettlement {
    pub channel: SalesChannels,
    pub unit_price: u64,
    pub claim_token: u64,
    pub refund_token: u64,
    pub claim_value: u64,
    pub refund_value: u64,
}

/// The settlement of all purchases of a vault: one line per purchase, the
/// number of vault tokens to mint to the owner, and the new processed count.
#[derive(Clone, Debug)]
pub struct Settlement {
    pub lines: Vec<TxSettlement>,
    pub total_claim_token: u64,
    pub processed_token: u64,
}

/// The transfers that close a settlement: the fee to the treasury, the
/// vault tokens minted to the owner, and the base token refunded.
#[derive(Clone, Copy, PartialEq, Eq, Structural, Debug)]
pub struct ClaimPlan {
    pub fee_transfer: Option<u64>,
    pub mint_amount: u64,
    pub refund_transfer: Option<u64>,
}

/// Split of a purchase of `amount` tokens into its claimed and refunded
/// parts, when `processed` tokens count as delivered and `total` may be:
/// the whole purchase is claimed while it fits under `total`, the part
/// that fits when it straddles `total`, and nothing beyond it.
pub open spec fn split_purchase(processed: int, amount: int, total: int) -> (int, int) {
    if processed + amount <= total {
        (amount, 0)
    } else if processed < total {
        (total - processed, amount - (total - processed))
    } else {
        (0, amount)
    }
}

/// Settles the purchases `txs` in order, starting from `processed` delivered
/// tokens with `total` to deliver. Each purchase not made through the
/// `Indirect` channel whose claimed part is positive adds that part to the
/// claimed count and its whole amount to the processed count. The result is
/// `(processed, claimed)`, or `None` when a count, or the sum of the
/// processed count and a purchase's amount, leaves the `u64` range.
pub open spec fn settle(txs: Seq<TxInfoModel>, processed: u64, total: u64) -> Option<(int, int)>
    decreases txs.len(),
{
    if txs.len() == 0 {
        Some((processed as int, 0))
    } else {
        match settle(txs.drop_last(), processed, total) {
            None => None,
            Some(acc) => {
                let tx = txs.last();
                if acc.0 + tx.amount > u64::MAX {
                    None
                } else {
                    let claim = split_purchase(acc.0, tx.amount as int, total as int).0;
                    if claim > 0 && tx.channel != SalesChannels::Indirect {
                        if acc.1 + claim > u64::MAX {
                            None
                        } else {
                            Some((acc.0 + tx.amount, acc.1 + claim))
                        }
                    } else {
                        Some(acc)
                    }
                }
            },
        }
    }
}

/// The settlement line of the purchase at index `i`, split against the
/// processed count that the purchases before it leave.
pub open spec fn settle_line(txs: Seq<TxInfoModel>, processed: u64, total: u64, i: int) -> TxSettlement {
    let before = settle(txs.take(i), processed, total).unwrap().0;
    let split = split_purchase(before, txs[i].amount as int, total as int);
    TxSettlement {
        channel: txs[i].channel,
        unit_price: txs[i].unit_price,
        claim_token: split.0 as u64,
        refund_token: split.1 as u64,
        claim_value: 0,
        refund_value: 0,
    }
}

/// `s` is the settlement of the purchases `txs` from `processed` delivered
/// tokens with `total` to deliver.
pub open spec fn is_settlement_of(s: Settlement, txs: Seq<TxInfoModel>, processed: u64, total: u64) -> bool {
    match settle(txs, processed, total) {
        None => false,
        Some(acc) => {
            &&& s.processed_token == acc.0
            &&& s.total_claim_token == acc.1
            &&& s.lines@.len() == txs.len()
            &&& forall|i: int|
                0 <= i < txs.len() ==> #[trigger] s.lines@[i] == settle_line(txs, processed, total, i)
        },
    }
}

/// Once a prefix of the purchases cannot be settled, neither can they all.
pub proof fn lemma_settle_prefix_none(txs: Seq<TxInfoModel>, processed: u64, total: u64, i: int)
    requires
        0 <= i <= txs.len(),
        settle(txs.take(i), processed, total) is None,
    ensures
        settle(txs, processed, total) is None,
    decreases txs.len() - i,
{
    if i == txs.len() {
        assert(txs.take(i) =~= txs);
    } else {
        assert(txs.take(i + 1).drop_last() =~= txs.take(i));
        lemma_settle_prefix_none(txs, processed, total, i + 1);
    }
}

/// Settlement only moves the processed count forward, and the claimed count
/// never exceeds the distance it moved.
pub proof fn lemma_settle_progress(txs: Seq<TxInfoModel>, processed: u64, total: u64)
    requires
        settle(txs, processed, total) is Some,
    ensures
        ({
            let acc = settle(txs, processed, total).unwrap();
            &&& processed <= acc.0 <= u64::MAX
            &&& 0 <= acc.1 <= acc.0 - processed
            &&& acc.1 <= u64::MAX
            &&& (acc.1 == 0 || processed + acc.1 <= total)
        }),
    decreases txs.len(),
{
    if txs.len() > 0 {
        lemma_settle_progress(txs.drop_last(), processed, total);
    }
}

/// Settlement never hands out more vault tokens than `total` leaves after
/// what counted as delivered when it started: the claimed count is zero, or
/// together with the starting processed count it is at most `total`.
pub proof fn lemma_settle_no_overmint(txs: Seq<TxInfoModel>, processed: u64, total: u64)
    requires
        settle(txs, processed, total) is Some,
    ensures
        settle(txs, processed, total).unwrap().1 == 0 || processed + settle(
            txs,
            processed,
            total,
        ).unwrap().1 <= total,
{
    lemma_settle_progress(txs, processed, total);
}

/// The outcome of settling the same purchases `rounds` times in a row, each
/// settlement starting from the processed count the previous one left:
/// `(processed, minted)`, where `minted` is the sum of the claimed counts of
/// all rounds, or `None` when some round cannot be settled.
pub open spec fn settle_rounds(txs: Seq<TxInfoModel>, processed: u64, total: u64, rounds: nat) -> Option<
    (int, int),
>
    decreases rounds,
{
    if rounds == 0 {
        Some((processed as int, 0))
    } else {
        match settle_rounds(txs, processed, total, (rounds - 1) as nat) {
            None => None,
            Some(acc) => match settle(txs, acc.0 as u64, total) {
                None => None,
                Some(next) => Some((next.0, acc.1 + next.1)),
            },
        }
    }
}

/// However many times the purchases are settled in a row, the vault tokens
/// minted over all rounds are none, or together with the processed count the
/// first round started from they are at most `total`.
pub proof fn lemma_repeated_settlements_no_overmint(
    txs: Seq<TxInfoModel>,
    processed: u64,
    total: u64,
    rounds: nat,
)
    requires
        settle_rounds(txs, processed, total, rounds) is Some,
    ensures
        ({
            let acc = settle_rounds(txs, processed, total, rounds).unwrap();
            &&& processed <= acc.0 <= u64::MAX
            &&& 0 <= acc.1 <= acc.0 - processed
            &&& (acc.1 == 0 || processed + acc.1 <= total)
        }),
    decreases rounds,
{
    if rounds > 0 {
        let prev = (rounds - 1) as nat;
        lemma_repeated_settlements_no_overmint(txs, processed, total, prev);
        let acc = settle_rounds(txs, processed, total, prev).unwrap();
        lemma_settle_progress(txs, acc.0 as u64, total);
    }
}

/// Every purchase is split whole: its claimed and refunded parts add up to
/// its amount, and neither is negative.
pub proof fn lemma_split_whole(processed: int, amount: int, total: int)
    requires
        0 <= amount,
    ensures
        split_purchase(processed, amount, total).0 + split_purchase(processed, amount, total).1
            == amount,
        0 <= split_purchase(processed, amount, total).0 <= amount,
        0 <= split_purchase(processed, amount, total).1 <= amount,
{
}

/// Tokens a settlement counts as delivered: the amounts of the purchases
/// whose line claims a positive part and that did not come through the
/// `Indirect` channel. Fully refunded purchases are not delivered.
pub open spec fn delivered(txs: Seq<TxInfoModel>, lines: Seq<TxSettlement>) -> int
    decreases txs.len(),
{
    if txs.len() == 0 || lines.len() == 0 {
        0
    } else {
        delivered(txs.drop_last(), lines.drop_last()) + if lines.last().claim_token > 0
            && lines.last().channel != SalesChannels::Indirect {
            txs.last().amount as int
        } else {
            0
        }
    }
}

/// Vault tokens a settlement mints to the owner: the claimed parts of the
/// lines that did not come through the `Indirect` channel.
pub open spec fn claimed_for_owner(lines: Seq<TxSettlement>) -> int
    decreases lines.len(),
{
    if lines.len() == 0 {
        0
    } else {
        claimed_for_owner(lines.drop_last()) + if lines.last().channel
            != SalesChannels::Indirect {
            lines.last().claim_token as int
        } else {
            0
        }
    }
}

/// The settlement lines of all the purchases.
pub open spec fn settlement_lines(txs: Seq<TxInfoModel>, processed: u64, total: u64) -> Seq<
    TxSettlement,
> {
    Seq::new(txs.len(), |i: int| settle_line(txs, processed, total, i))
}

/// The lines of a prefix of the purchases are the prefix of their lines.
proof fn lemma_lines_prefix(txs: Seq<TxInfoModel>, processed: u64, total: u64, k: int)
    requires
        0 <= k <= txs.len(),
    ensures
        settlement_lines(txs.take(k), processed, total) == settlement_lines(txs, processed, total).take(
            k,
        ),
{
    assert forall|i: int| 0 <= i < k implies settle_line(txs.take(k), processed, total, i)
        == settle_line(txs, processed, total, i) by {
        assert(txs.take(k).take(i) =~= txs.take(i));
    }
    assert(settlement_lines(txs.take(k), processed, total) =~= settlement_lines(
        txs,
        processed,
        total,
    ).take(k));
}

/// The claimed part of a purchase is the whole of it or the room left
/// under the total, whichever is smaller.
proof fn lemma_split_is_min(processed: int, amount: int, total: int)
    requires
        0 <= amount,
    ensures
        ({
            let room = if total > processed {
                total - processed
            } else {
                0
            };
            split_purchase(processed, amount, total).0 == if amount <= room {
                amount
            } else {
                room
            }
        }),
{
}

/// What `settle` counts, read off its lines.
proof fn lemma_settle_counts(txs: Seq<TxInfoModel>, processed: u64, total: u64)
    requires
        settle(txs, processed, total) is Some,
    ensures
        settle(txs, processed, total).unwrap().0 == processed + delivered(
            txs,
            settlement_lines(txs, processed, total),
        ),
        settle(txs, processed, total).unwrap().1 == claimed_for_owner(
            settlement_lines(txs, processed, total),
        ),
    decreases txs.len(),
{
    if txs.len() > 0 {
        let n = txs.len() as int;
        let d = txs.drop_last();
        assert(txs.take(n - 1) =~= d);
        lemma_settle_counts(d, processed, total);
        lemma_lines_prefix(txs, processed, total, n - 1);
        let lines = settlement_lines(txs, processed, total);
        assert(lines.drop_last() =~= lines.take(n - 1));
        let acc = settle(d, processed, total).unwrap();
        lemma_settle_progress(d, processed, total);
        lemma_split_whole(acc.0, txs.last().amount as int, total as int);
    }
}

/// A settlement's counts follow from its lines, and its lines from the
/// purchases in order: the processed count grows by the amount of exactly
/// those purchases that are not `Indirect` and have a positive claimed part,
/// so a fully refunded purchase is never counted as delivered; the vault
/// tokens minted to the owner are the claimed parts of the purchases that
/// are not `Indirect`; and each purchase is claimed up to the room that the
/// purchases before it leave under the total, the rest refunded.
pub proof fn lemma_settlement_accounts(
    s: Settlement,
    txs: Seq<TxInfoModel>,
    processed: u64,
    total: u64,
)
    requires
        is_settlement_of(s, txs, processed, total),
    ensures
        s.processed_token == processed + delivered(txs, s.lines@),
        s.total_claim_token == claimed_for_owner(s.lines@),
        forall|i: int|
            0 <= i < txs.len() ==> {
                let before = processed + delivered(txs.take(i), s.lines@.take(i));
                let room = if total > before {
                    total - before
                } else {
                    0
                };
                &&& #[trigger] s.lines@[i].claim_token == if txs[i].amount <= room {
                    txs[i].amount as int
                } else {
                    room
                }
                &&& s.lines@[i].claim_token + s.lines@[i].refund_token == txs[i].amount
                &&& s.lines@[i].channel == txs[i].channel
                &&& s.lines@[i].unit_price == txs[i].unit_price
                &&& s.lines@[i].claim_value == 0
                &&& s.lines@[i].refund_value == 0
            },
{
    let lines = settlement_lines(txs, processed, total);
    assert(s.lines@ =~= lines);
    lemma_settle_counts(txs, processed, total);
    assert forall|i: int| 0 <= i < txs.len() implies {
        let before = processed + delivered(txs.take(i), s.lines@.take(i));
        let room = if total > before {
            total - before
        } else {
            0
        };
        &&& #[trigger] s.lines@[i].claim_token == if txs[i].amount <= room {
            txs[i].amount as int
        } else {
            room
        }
        &&& s.lines@[i].claim_token + s.lines@[i].refund_token == txs[i].amount
        &&& s.lines@[i].channel == txs[i].channel
        &&& s.lines@[i].unit_price == txs[i].unit_price
        &&& s.lines@[i].claim_value == 0
        &&& s.lines@[i].refund_value == 0
    } by {
        if settle(txs.take(i), processed, total) is None {
            lemma_settle_prefix_none(txs, processed, total, i);
        }
        lemma_settle_counts(txs.take(i), processed, total);
        lemma_lines_prefix(txs, processed, total, i);
        let before = settle(txs.take(i), processed, total).unwrap().0;
        lemma_split_whole(before, txs[i].amount as int, total as int);
        lemma_split_is_min(before, txs[i].amount as int, total as int);
    }
}

/// Base-token value collected by a settlement: the claimed values of the
/// `DirectOnchain` purchases with a positive claimed part.
pub open spec fn collected(lines: Seq<TxSettlement>) -> int
    decreases lines.len(),
{
    if lines.len() == 0 {
        0
    } else {
        collected(lines.drop_last()) + if lines.last().claim_token > 0 && lines.last().channel
            == SalesChannels::DirectOnchain {
            lines.last().claim_value as int
        } else {
            0
        }
    }
}

/// Base-token value refunded by a settlement: the refunded values of the
/// `DirectOnchain` purchases with a positive refunded part.
pub open spec fn refunded(lines: Seq<TxSettlement>) -> int
    decreases lines.len(),
{
    if lines.len() == 0 {
        0
    } else {
        refunded(lines.drop_last()) + if lines.last().refund_token > 0 && lines.last().channel
            == SalesChannels::DirectOnchain {
            lines.last().refund_value as int
        } else {
            0
        }
    }
}

/// The sums over a prefix of the lines are at most the sums over them all.
pub proof fn lemma_sums_prefix(lines: Seq<TxSettlement>, i: int)
    requires
        0 <= i <= lines.len(),
    ensures
        0 <= collected(lines.take(i)) <= collected(lines),
        0 <= refunded(lines.take(i)) <= refunded(lines),
    decreases lines.len() - i,
{
    if i == lines.len() {
        assert(lines.take(i) =~= lines);
        lemma_sums_nonneg(lines);
    } else {
        assert(lines.take(i + 1).drop_last() =~= lines.take(i));
        lemma_sums_prefix(lines, i + 1);
        lemma_sums_nonneg(lines.take(i));
    }
}

/// The sums are never negative.
pub proof fn lemma_sums_nonneg(lines: Seq<TxSettlement>)
    ensures
        0 <= collected(lines),
        0 <= refunded(lines),
    decreases lines.len(),
{
    if lines.len() > 0 {
        lemma_sums_nonneg(lines.drop_last());
    }
}

/// The transfers that close the settlement with lines `lines`, `minted`
/// vault tokens to mint and a fee of `treasury_fee` basis points: the fee
/// is the collected value times the fee over 10000, transferred only when
/// both are positive; the refund is transferred only when positive; the
/// mint always happens. `None` when a sum or the product of the collected
/// value and the fee leaves the `u64` range.
pub open spec fn plan_for(lines: Seq<TxSettlement>, minted: u64, treasury_fee: u64) -> Option<
    ClaimPlan,
> {
    let collect = collected(lines);
    let refund = refunded(lines);
    if collect > u64::MAX || refund > u64::MAX {
        None
    } else if collect > 0 && treasury_fee > 0 && collect * treasury_fee > u64::MAX {
        None
    } else {
        Some(
            ClaimPlan {
                fee_transfer: if collect > 0 && treasury_fee > 0 {
                    Some((collect * treasury_fee / 10000) as u64)
                } else {
                    None
                },
                mint_amount: minted,
                refund_transfer: if refund > 0 {
                    Some(refund as u64)
                } else {
                    None
                },
            },
        )
    }
}

/// Two lists of lines agree on everything the transfers of a settlement
/// may depend on: the channels and the claimed and refunded parts, and the
/// claimed (refunded) value of each `DirectOnchain` line whose claimed
/// (refunded) part is positive.
pub open spec fn same_payable(a: Seq<TxSettlement>, b: Seq<TxSettlement>) -> bool {
    &&& a.len() == b.len()
    &&& forall|i: int|
        0 <= i < a.len() ==> {
            &&& #[trigger] a[i].channel == b[i].channel
            &&& a[i].claim_token == b[i].claim_token
            &&& a[i].refund_token == b[i].refund_token
            &&& (a[i].channel == SalesChannels::DirectOnchain && a[i].claim_token > 0
                ==> a[i].claim_value == b[i].claim_value)
            &&& (a[i].channel == SalesChannels::DirectOnchain && a[i].refund_token > 0
                ==> a[i].refund_value == b[i].refund_value)
        }
}

proof fn lemma_sums_same_payable(a: Seq<TxSettlement>, b: Seq<TxSettlement>)
    requires
        same_payable(a, b),
    ensures
        collected(a) == collected(b),
        refunded(a) == refunded(b),
    decreases a.len(),
{
    if a.len() > 0 {
        let n = a.len() - 1;
        assert(a[n] == a.last() && b[n] == b.last());
        assert(same_payable(a.drop_last(), b.drop_last())) by {
            assert forall|i: int| 0 <= i < a.drop_last().len() implies {
                &&& #[trigger] a.drop_last()[i].channel == b.drop_last()[i].channel
                &&& a.drop_last()[i].claim_token == b.drop_last()[i].claim_token
                &&& a.drop_last()[i].refund_token == b.drop_last()[i].refund_token
                &&& (a.drop_last()[i].channel == SalesChannels::DirectOnchain
                    && a.drop_last()[i].claim_token > 0 ==> a.drop_last()[i].claim_value
                    == b.drop_last()[i].claim_value)
                &&& (a.drop_last()[i].channel == SalesChannels::DirectOnchain
                    && a.drop_last()[i].refund_token > 0 ==> a.drop_last()[i].refund_value
                    == b.drop_last()[i].refund_value)
            } by {
                assert(a.drop_last()[i] == a[i] && b.drop_last()[i] == b[i]);
            }
        }
        lemma_sums_same_payable(a.drop_last(), b.drop_last());
    }
}

/// The refunded value is positive exactly when some `DirectOnchain` line
/// refunds a positive part with a positive value, and the collected value
/// likewise for claimed parts.
proof fn lemma_sums_positive(lines: Seq<TxSettlement>)
    ensures
        refunded(lines) > 0 <==> exists|i: int|
            0 <= i < lines.len() && #[trigger] lines[i].channel == SalesChannels::DirectOnchain
                && lines[i].refund_token > 0 && lines[i].refund_value > 0,
        collected(lines) > 0 <==> exists|i: int|
            0 <= i < lines.len() && #[trigger] lines[i].channel == SalesChannels::DirectOnchain
                && lines[i].claim_token > 0 && lines[i].claim_value > 0,
    decreases lines.len(),
{
    if lines.len() > 0 {
        let d = lines.drop_last();
        let n = lines.len() - 1;
        lemma_sums_positive(d);
        lemma_sums_nonneg(d);
        assert(lines[n] == lines.last());
        assert forall|i: int| 0 <= i < d.len() implies #[trigger] d[i] == lines[i] by {}
        if refunded(d) > 0 {
            let i = choose|i: int|
                0 <= i < d.len() && #[trigger] d[i].channel == SalesChannels::DirectOnchain
                    && d[i].refund_token > 0 && d[i].refund_value > 0;
            assert(lines[i] == d[i]);
        }
        if collected(d) > 0 {
            let i = choose|i: int|
                0 <= i < d.len() && #[trigger] d[i].channel == SalesChannels::DirectOnchain
                    && d[i].claim_token > 0 && d[i].claim_value > 0;
            assert(lines[i] == d[i]);
        }
        if exists|i: int|
            0 <= i < lines.len() && #[trigger] lines[i].channel == SalesChannels::DirectOnchain
                && lines[i].refund_token > 0 && lines[i].refund_value > 0 {
            let i = choose|i: int|
                0 <= i < lines.len() && #[trigger] lines[i].channel == SalesChannels::DirectOnchain
                    && lines[i].refund_token > 0 && lines[i].refund_value > 0;
            if i < n {
                assert(d[i] == lines[i]);
            }
        }
        if exists|i: int|
            0 <= i < lines.len() && #[trigger] lines[i].channel == SalesChannels::DirectOnchain
                && lines[i].claim_token > 0 && lines[i].claim_value > 0 {
            let i = choose|i: int|
                0 <= i < lines.len() && #[trigger] lines[i].channel == SalesChannels::DirectOnchain
                    && lines[i].claim_token > 0 && lines[i].claim_value > 0;
            if i < n {
                assert(d[i] == lines[i]);
            }
        }
    }
}

/// The closing transfers depend only on the `DirectOnchain` purchases: two
/// settlements that agree on the channels, the claimed and refunded parts,
/// and the values of the positive parts of `DirectOnchain` lines get the
/// same transfers, whatever values the other lines carry. Base token is
/// refunded exactly when some `DirectOnchain` line refunds a positive part
/// of positive value, a fee is taken only when some `DirectOnchain` line
/// claims a positive part of positive value, and the mint is the claimed
/// count given.
pub proof fn lemma_plan_onchain_only(
    a: Seq<TxSettlement>,
    b: Seq<TxSettlement>,
    minted: u64,
    treasury_fee: u64,
)
    ensures
        same_payable(a, b) ==> plan_for(a, minted, treasury_fee) == plan_for(
            b,
            minted,
            treasury_fee,
        ),
        plan_for(a, minted, treasury_fee) matches Some(plan) ==> {
            &&& plan.mint_amount == minted
            &&& (plan.refund_transfer is Some <==> exists|i: int|
                0 <= i < a.len() && #[trigger] a[i].channel == SalesChannels::DirectOnchain
                    && a[i].refund_token > 0 && a[i].refund_value > 0)
            &&& (plan.fee_transfer is Some ==> treasury_fee > 0 && exists|i: int|
                0 <= i < a.len() && #[trigger] a[i].channel == SalesChannels::DirectOnchain
                    && a[i].claim_token > 0 && a[i].claim_value > 0)
        },
{
    if same_payable(a, b) {
        lemma_sums_same_payable(a, b);
    }
    lemma_sums_positive(a);
}

/// The amount of a transfer that may not happen: zero when it does not.
pub open spec fn transfer_amount(t: Option<u64>) -> int {
    match t {
        Some(x) => x as int,
        None => 0,
    }
}

/// The collected and refunded values add up line by line: no lines give
/// nothing, and each further line adds its claimed value when it is a
/// `DirectOnchain` line claiming a positive part, and its refunded value when
/// it is a `DirectOnchain` line refunding a positive part. The refund
/// transfer is the refunded value, the fee is the collected value times the
/// fee in basis points, rounded down, and no fee is taken on nothing.
pub proof fn lemma_payment_sums(a: Seq<TxSettlement>, l: TxSettlement, minted: u64, treasury_fee: u64)
    ensures
        collected(Seq::<TxSettlement>::empty()) == 0,
        refunded(Seq::<TxSettlement>::empty()) == 0,
        collected(a.push(l)) == collected(a) + if l.channel == SalesChannels::DirectOnchain
            && l.claim_token > 0 {
            l.claim_value as int
        } else {
            0
        },
        refunded(a.push(l)) == refunded(a) + if l.channel == SalesChannels::DirectOnchain
            && l.refund_token > 0 {
            l.refund_value as int
        } else {
            0
        },
        plan_for(a, minted, treasury_fee) matches Some(plan) ==> {
            &&& transfer_amount(plan.refund_transfer) == refunded(a)
            &&& transfer_amount(plan.fee_transfer) * 10000 <= collected(a) * treasury_fee
            &&& collected(a) * treasury_fee < (transfer_amount(plan.fee_transfer) + 1) * 10000
            &&& (collected(a) == 0 || treasury_fee == 0 ==> plan.fee_transfer is None)
        },
        plan_for(Seq::<TxSettlement>::empty(), minted, treasury_fee) == Some(
            ClaimPlan { fee_transfer: None, mint_amount: minted, refund_transfer: None },
        ),
{
    assert(a.push(l).drop_last() =~= a);
    lemma_sums_nonneg(a);
    if plan_for(a, minted, treasury_fee) is Some {
        let c = collected(a);
        let f = treasury_fee as int;
        if c > 0 && f > 0 {
            let q = c * f / 10000;
            assert(q * 10000 <= c * f && c * f < (q + 1) * 10000) by (nonlinear_arith)
                requires
                    q == c * f / 10000,
                    c * f >= 0,
            ;
        } else {
            assert(c * f == 0) by (nonlinear_arith)
                requires
                    c == 0 || f == 0,
            ;
        }
    }
}

/// A fee of at most 100% never takes more than the collected value.
pub proof fn lemma_fee_within_collected(collect: int, treasury_fee: int)
    requires
        0 <= collect,
        0 <= treasury_fee <= 10000,
    ensures
        collect * treasury_fee / 10000 <= collect,
{
    assert(collect * treasury_fee <= collect * 10000) by (nonlinear_arith)
        requires
            0 <= collect,
            treasury_fee <= 10000,
    ;
    assert(collect * treasury_fee / 10000 <= collect * 10000 / 10000) by (nonlinear_arith)
        requires
            collect * treasury_fee <= collect * 10000,
            0 <= collect * treasury_fee,
    ;
}

} // verus!
