use vstd::prelude::*;
use crate::entity::domain::financial_database_tables::{GeneralJournal, Journal};
use crate::entity::dto::general_journal::GeneralJournalDTO;
use crate::entity::dto::journal::JournalDTO;
use crate::entity::vo::jwt::JWTToken;
use crate::error::Error;
use crate::service::content_service::{missing_item, missing_item_message};
use crate::util;
use crate::util::transaction::{after_write, is_write_action, TxAction};
use crate::util::{blank, is_blank};
use crate::util::date_time::Day;
use crate::util::money::{
    Amount, checked_difference, checked_sum, difference_fits, difference_of, larger_scale,
    lemma_difference_fits_within, lemma_pow10_monotone, lemma_pow10_positive,
    lemma_sum_fits_within, sum_fits, sum_of, within, MAX_MANTISSA, MAX_SCALE,
};

verus! {

/// The financial service: journals and their lines.
pub struct FinancialService {}

/// Whether a line's flag marks an income.
pub open spec fn is_income(flag: Seq<char>) -> bool {
    flag == seq!['1']
}

/// Whether a line's flag marks an outlay.
pub open spec fn is_outlay(flag: Seq<char>) -> bool {
    flag == seq!['2']
}

/// Whether a line's flag is one of the two kinds.
pub open spec fn is_known_kind(flag: Seq<char>) -> bool {
    is_income(flag) || is_outlay(flag)
}

/// The income and the outlay of a journal.
#[derive(Clone, Copy, Debug)]
pub struct Balance {
    pub income: Amount,
    pub outlay: Amount,
}

impl Balance {
    /// Whether both are decimals.
    pub open spec fn wf(self) -> bool {
        self.income.wf() && self.outlay.wf()
    }
}

/// What booking a line into a balance, or taking it out, gives.
#[derive(Clone, Copy, Debug)]
pub enum Entry {
    /// The decimal arithmetic overflowed.
    Overflow,
    /// The line's flag is neither an income nor an outlay.
    UnknownKind,
    /// The new balance.
    Booked(Balance),
}

/// Zero, as `Decimal::from(0)` writes it.
pub open spec fn zero() -> Amount {
    Amount { mantissa: 0, scale: 0 }
}

/// The balance after adding `amount` to the income (flag `"1"`) or to the
/// outlay (flag `"2"`), as `rust_decimal` adds.
pub open spec fn booked(b: Balance, flag: Seq<char>, amount: Amount) -> Entry {
    if is_income(flag) {
        match sum_of(b.income, amount) {
            Some(i) => Entry::Booked(Balance { income: i, outlay: b.outlay }),
            None => Entry::Overflow,
        }
    } else if is_outlay(flag) {
        match sum_of(b.outlay, amount) {
            Some(o) => Entry::Booked(Balance { income: b.income, outlay: o }),
            None => Entry::Overflow,
        }
    } else {
        Entry::UnknownKind
    }
}

/// The balance after taking `amount` off the income (flag `"1"`) or off the
/// outlay (flag `"2"`), as `rust_decimal` subtracts.
pub open spec fn unbooked(b: Balance, flag: Seq<char>, amount: Amount) -> Entry {
    if is_income(flag) {
        match difference_of(b.income, amount) {
            Some(i) => Entry::Booked(Balance { income: i, outlay: b.outlay }),
            None => Entry::Overflow,
        }
    } else if is_outlay(flag) {
        match difference_of(b.outlay, amount) {
            Some(o) => Entry::Booked(Balance { income: b.income, outlay: o }),
            None => Entry::Overflow,
        }
    } else {
        Entry::UnknownKind
    }
}

/// The total of a balance, `0 + income + outlay`, as `rust_decimal` adds.
pub open spec fn total_of(b: Balance) -> Option<Amount> {
    match sum_of(zero(), b.income) {
        Some(t) => sum_of(t, b.outlay),
        None => None,
    }
}

/// The values of income and outlay after booking a line of value `amount`.
pub open spec fn booked_values(income: int, outlay: int, flag: Seq<char>, amount: int) -> (int, int) {
    if is_income(flag) {
        (income + amount, outlay)
    } else if is_outlay(flag) {
        (income, outlay + amount)
    } else {
        (income, outlay)
    }
}

/// The values of income and outlay after taking a line of value `amount`
/// out.
pub open spec fn unbooked_values(income: int, outlay: int, flag: Seq<char>, amount: int) -> (int, int) {
    if is_income(flag) {
        (income - amount, outlay)
    } else if is_outlay(flag) {
        (income, outlay - amount)
    } else {
        (income, outlay)
    }
}

/// The flag of a line: `"1"` an income, `"2"` an outlay.
pub fn kind_of(flag: &String) -> (r: u8)
    ensures
        r == 1 <==> is_income(flag@),
        r == 2 <==> is_outlay(flag@),
        r == 0 <==> !is_known_kind(flag@),
{
    let s = flag.as_str();
    if s.unicode_len() != 1 {
        return 0;
    }
    let c = s.get_char(0);
    if c == '1' {
        assert(flag@ =~= seq!['1']);
        1
    } else if c == '2' {
        assert(flag@ =~= seq!['2']);
        2
    } else {
        0
    }
}

/// Books a line into a balance: adds `amount` to the income (flag `"1"`)
/// or to the outlay (flag `"2"`). Where the exact sum fits in a decimal,
/// the new value is that sum.
pub fn book(b: &Balance, flag: &String, amount: &Amount) -> (r: Entry)
    requires
        b.wf(),
        amount.wf(),
    ensures
        r == booked(*b, flag@, *amount),
        r matches Entry::Booked(n) ==> (n.wf() && n.income.scale <= larger_scale(b.income, *amount)
            && n.outlay.scale <= larger_scale(b.outlay, *amount)),
        is_income(flag@) && sum_fits(b.income, *amount) ==> (r matches Entry::Booked(n)
            && n.income.value() == b.income.value() + amount.value() && n.outlay == b.outlay),
        is_outlay(flag@) && sum_fits(b.outlay, *amount) ==> (r matches Entry::Booked(n)
            && n.outlay.value() == b.outlay.value() + amount.value() && n.income == b.income),
{
    let kind = kind_of(flag);
    if kind == 1 {
        match checked_sum(&b.income, amount) {
            Some(i) => Entry::Booked(Balance { income: i, outlay: b.outlay }),
            None => Entry::Overflow,
        }
    } else if kind == 2 {
        match checked_sum(&b.outlay, amount) {
            Some(o) => Entry::Booked(Balance { income: b.income, outlay: o }),
            None => Entry::Overflow,
        }
    } else {
        Entry::UnknownKind
    }
}

/// Takes a line out of a balance: subtracts `amount` from the income (flag
/// `"1"`) or from the outlay (flag `"2"`). Where the exact difference fits
/// in a decimal, the new value is that difference.
pub fn unbook(b: &Balance, flag: &String, amount: &Amount) -> (r: Entry)
    requires
        b.wf(),
        amount.wf(),
    ensures
        r == unbooked(*b, flag@, *amount),
        r matches Entry::Booked(n) ==> (n.wf() && n.income.scale <= larger_scale(b.income, *amount)
            && n.outlay.scale <= larger_scale(b.outlay, *amount)),
        is_income(flag@) && difference_fits(b.income, *amount) ==> (r matches Entry::Booked(n)
            && n.income.value() == b.income.value() - amount.value() && n.outlay == b.outlay),
        is_outlay(flag@) && difference_fits(b.outlay, *amount) ==> (r matches Entry::Booked(n)
            && n.outlay.value() == b.outlay.value() - amount.value() && n.income == b.income),
{
    let kind = kind_of(flag);
    if kind == 1 {
        match checked_difference(&b.income, amount) {
            Some(i) => Entry::Booked(Balance { income: i, outlay: b.outlay }),
            None => Entry::Overflow,
        }
    } else if kind == 2 {
        match checked_difference(&b.outlay, amount) {
            Some(o) => Entry::Booked(Balance { income: b.income, outlay: o }),
            None => Entry::Overflow,
        }
    } else {
        Entry::UnknownKind
    }
}

/// A number fits once more digits are allowed after the point: the range of
/// a larger scale lies within the range of a smaller one.
pub proof fn lemma_within_weaken(value: int, small: u32, large: u32)
    requires
        small <= large <= MAX_SCALE,
        within(value, large),
    ensures
        within(value, small),
{
    let p = crate::util::money::pow10((MAX_SCALE - large) as nat);
    let q = crate::util::money::pow10((MAX_SCALE - small) as nat);
    lemma_pow10_monotone((MAX_SCALE - large) as nat, (MAX_SCALE - small) as nat);
    lemma_pow10_positive((MAX_SCALE - large) as nat);
    let k = MAX_MANTISSA as int;
    assert(k * p <= k * q) by (nonlinear_arith)
        requires
            k > 0,
            p <= q,
    ;
}

/// The total of a balance, `0 + income + outlay`, as `rust_decimal` adds;
/// `None` where it overflows. Where income plus outlay lies within the range
/// of their scales, the total is that sum.
pub fn total(b: &Balance) -> (r: Option<Amount>)
    requires
        b.wf(),
    ensures
        r == total_of(*b),
        r matches Some(t) ==> (t.wf() && t.scale <= larger_scale(b.income, b.outlay)),
        within(b.income.value() + b.outlay.value(), larger_scale(b.income, b.outlay)) ==> (r matches Some(
            t,
        ) && t.value() == b.income.value() + b.outlay.value()),
{
    let z = Amount::zero();
    proof {
        assert(crate::util::money::pow10(0) == 1);
        assert((b.income.scale - b.income.scale) as nat == 0);
        assert(crate::util::money::aligned(b.income, b.income.scale) == b.income.mantissa);
        assert(larger_scale(z, b.income) == b.income.scale);
        assert(sum_fits(z, b.income));
    }
    let t = match checked_sum(&z, &b.income) {
        Some(t) => t,
        None => {
            return None;
        },
    };
    proof {
        let m = larger_scale(b.income, b.outlay);
        if within(b.income.value() + b.outlay.value(), m) {
            lemma_sum_fits_within(t, b.outlay, m);
        }
    }
    checked_sum(&t, &b.outlay)
}

/// The flag of a line, empty where it has none.
pub open spec fn flag_of(line: GeneralJournalDTO) -> Seq<char> {
    match line.flag {
        Some(f) => f@,
        None => Seq::empty(),
    }
}

/// The amount of a line, zero where it has none.
pub open spec fn line_amount(line: GeneralJournalDTO) -> Amount {
    match line.amount {
        Some(a) => a,
        None => zero(),
    }
}

/// Whether a line lacks its flag or its amount.
pub open spec fn line_incomplete(line: GeneralJournalDTO) -> bool {
    line.flag is None || line.amount is None
}

/// Whether every amount of the lines is a decimal.
pub open spec fn lines_wf(lines: Seq<GeneralJournalDTO>) -> bool {
    forall|j: int| 0 <= j < lines.len() ==> ((#[trigger] lines[j]).amount matches Some(a) ==> a.wf())
}

/// Whether every line is an income or an outlay.
pub open spec fn kinds_known(lines: Seq<GeneralJournalDTO>) -> bool {
    forall|j: int| 0 <= j < lines.len() ==> is_known_kind(flag_of(#[trigger] lines[j]))
}

/// Whether summing the lines comes to a line without flag or amount, every
/// line before it being an income or an outlay: the sum cannot go on there.
pub open spec fn tally_halts(lines: Seq<GeneralJournalDTO>) -> bool {
    exists|i: int| 0 <= i < lines.len() && kinds_known(lines.take(i)) && line_incomplete(#[trigger] lines[i])
}

/// The balance of the lines, summed from zero in order, as `rust_decimal`
/// adds; the first line that overflows or has an unknown kind stops it.
pub open spec fn tally(lines: Seq<GeneralJournalDTO>) -> Entry
    decreases lines.len(),
{
    if lines.len() == 0 {
        Entry::Booked(Balance { income: zero(), outlay: zero() })
    } else {
        match tally(lines.drop_last()) {
            Entry::Booked(b) => booked(b, flag_of(lines.last()), line_amount(lines.last())),
            e => e,
        }
    }
}

/// The exact sum of the incomes of the lines, in units of 10^-28.
pub open spec fn income_total(lines: Seq<GeneralJournalDTO>) -> int
    decreases lines.len(),
{
    if lines.len() == 0 {
        0
    } else {
        income_total(lines.drop_last()) + if is_income(flag_of(lines.last())) {
            line_amount(lines.last()).value()
        } else {
            0
        }
    }
}

/// The exact sum of the outlays of the lines, in units of 10^-28.
pub open spec fn outlay_total(lines: Seq<GeneralJournalDTO>) -> int
    decreases lines.len(),
{
    if lines.len() == 0 {
        0
    } else {
        outlay_total(lines.drop_last()) + if is_outlay(flag_of(lines.last())) {
            line_amount(lines.last()).value()
        } else {
            0
        }
    }
}

/// The largest scale among the amounts of the lines.
pub open spec fn lines_scale(lines: Seq<GeneralJournalDTO>) -> u32
    decreases lines.len(),
{
    if lines.len() == 0 {
        0
    } else {
        let s = lines_scale(lines.drop_last());
        let t = line_amount(lines.last()).scale;
        if s >= t {
            s
        } else {
            t
        }
    }
}

/// Whether every running sum of the incomes and of the outlays, and their
/// final sum, lies within the range of the largest scale of the lines.
pub open spec fn lines_within(lines: Seq<GeneralJournalDTO>) -> bool {
    let m = lines_scale(lines);
    &&& forall|k: int|
        #![trigger lines.take(k)]
        0 <= k <= lines.len() ==> within(income_total(lines.take(k)), m) && within(
            outlay_total(lines.take(k)),
            m,
        )
    &&& within(income_total(lines) + outlay_total(lines), m)
}

/// The largest scale of a prefix of lines is at most that of the lines.
proof fn lemma_lines_scale_prefix(lines: Seq<GeneralJournalDTO>, k: int)
    requires
        0 <= k <= lines.len(),
    ensures
        lines_scale(lines.take(k)) <= lines_scale(lines),
    decreases lines.len(),
{
    if k == lines.len() {
        assert(lines.take(k) =~= lines);
    } else {
        assert(lines.drop_last().take(k) =~= lines.take(k));
        lemma_lines_scale_prefix(lines.drop_last(), k);
    }
}

/// The largest scale of decimals is at most 28.
proof fn lemma_lines_scale_bound(lines: Seq<GeneralJournalDTO>)
    requires
        lines_wf(lines),
    ensures
        lines_scale(lines) <= MAX_SCALE,
    decreases lines.len(),
{
    if lines.len() > 0 {
        assert(lines_wf(lines.drop_last())) by {
            assert forall|j: int| 0 <= j < lines.drop_last().len() implies ((
            #[trigger] lines.drop_last()[j]).amount matches Some(a) ==> a.wf()) by {
                assert(lines.drop_last()[j] == lines[j]);
            }
        }
        lemma_lines_scale_bound(lines.drop_last());
        assert(lines.last() == lines[lines.len() - 1]);
    }
}

/// Once summing stops at a prefix, the lines after it change nothing.
proof fn lemma_tally_stuck(lines: Seq<GeneralJournalDTO>, k: int)
    requires
        0 <= k <= lines.len(),
        !(tally(lines.take(k)) is Booked),
    ensures
        tally(lines) == tally(lines.take(k)),
    decreases lines.len(),
{
    if k == lines.len() {
        assert(lines.take(k) =~= lines);
    } else {
        assert(lines.drop_last().take(k) =~= lines.take(k));
        lemma_tally_stuck(lines.drop_last(), k);
    }
}

/// One more line summed: the balance of the longer prefix, its kinds and
/// scales, and its exact sums where the lines stay within range.
proof fn lemma_tally_step(lines: Seq<GeneralJournalDTO>, i: int, bal: Balance, e: Entry)
    requires
        0 <= i < lines.len(),
        lines_wf(lines),
        lines[i].flag is Some,
        lines[i].amount is Some,
        tally(lines.take(i)) == Entry::Booked(bal),
        bal.wf(),
        kinds_known(lines.take(i)),
        bal.income.scale <= lines_scale(lines.take(i)),
        bal.outlay.scale <= lines_scale(lines.take(i)),
        kinds_known(lines) && lines_within(lines) ==> (bal.income.value() == income_total(
            lines.take(i),
        ) && bal.outlay.value() == outlay_total(lines.take(i))),
        e == booked(bal, flag_of(lines[i]), line_amount(lines[i])),
        e matches Entry::Booked(n) ==> (n.wf() && n.income.scale <= larger_scale(
            bal.income,
            line_amount(lines[i]),
        ) && n.outlay.scale <= larger_scale(bal.outlay, line_amount(lines[i]))),
        is_income(flag_of(lines[i])) && sum_fits(bal.income, line_amount(lines[i])) ==> (e matches Entry::Booked(n)
            && n.income.value() == bal.income.value() + line_amount(lines[i]).value() && n.outlay
            == bal.outlay),
        is_outlay(flag_of(lines[i])) && sum_fits(bal.outlay, line_amount(lines[i])) ==> (e matches Entry::Booked(n)
            && n.outlay.value() == bal.outlay.value() + line_amount(lines[i]).value() && n.income
            == bal.income),
    ensures
        e == tally(lines.take(i + 1)),
        e matches Entry::Booked(n) ==> (kinds_known(lines.take(i + 1)) && n.income.scale
            <= lines_scale(lines.take(i + 1)) && n.outlay.scale <= lines_scale(lines.take(i + 1))),
        e matches Entry::Booked(n) ==> (kinds_known(lines) && lines_within(lines) ==> (
        n.income.value() == income_total(lines.take(i + 1)) && n.outlay.value() == outlay_total(
            lines.take(i + 1),
        ))),
        kinds_known(lines) && lines_within(lines) ==> e is Booked,
{
    let next = lines.take(i + 1);
    let amt = line_amount(lines[i]);
    let flag = flag_of(lines[i]);
    assert(next.drop_last() =~= lines.take(i));
    assert(next.last() == lines[i]);
    assert(tally(next) == booked(bal, flag, amt));
    assert(income_total(next) == income_total(lines.take(i)) + if is_income(flag) {
        amt.value()
    } else {
        0
    });
    assert(outlay_total(next) == outlay_total(lines.take(i)) + if is_outlay(flag) {
        amt.value()
    } else {
        0
    });
    assert(lines_scale(next) == if lines_scale(lines.take(i)) >= amt.scale {
        lines_scale(lines.take(i))
    } else {
        amt.scale
    });
    if let Entry::Booked(n) = e {
        assert(is_known_kind(flag));
        assert forall|j: int| 0 <= j < next.len() implies is_known_kind(flag_of(#[trigger] next[j])) by {
            if j < i {
                assert(next[j] == lines.take(i)[j]);
            }
        }
    }
    if kinds_known(lines) && lines_within(lines) {
        let m = lines_scale(lines);
        lemma_lines_scale_prefix(lines, i);
        lemma_lines_scale_prefix(lines, i + 1);
        lemma_lines_scale_bound(lines);
        assert(is_known_kind(flag_of(lines[i])));
        assert(lines[i].amount matches Some(a) ==> a.wf());
        assert(within(income_total(lines.take(i + 1)), m) && within(outlay_total(lines.take(i + 1)), m));
        if is_income(flag) {
            assert(flag[0] == '1');
            lemma_sum_fits_within(bal.income, amt, m);
        } else {
            lemma_sum_fits_within(bal.outlay, amt, m);
        }
    }
}

impl FinancialService {
    /// Sums the lines of a journal from zero, in order: flag `"1"` adds to
    /// the income, flag `"2"` to the outlay; a line of another kind stops
    /// the sum (`UnknownKind`), and so does an overflow of the decimals.
    /// Where every line has a known kind and every running sum lies within
    /// the range of the lines' largest scale, income and outlay are the
    /// exact sums.
    pub fn tally_lines(&self, details: &Vec<GeneralJournalDTO>) -> (r: Entry)
        requires
            lines_wf(details@),
            !tally_halts(details@),
        ensures
            r == tally(details@),
            r matches Entry::Booked(b) ==> (b.wf() && b.income.scale <= lines_scale(details@)
                && b.outlay.scale <= lines_scale(details@)),
            kinds_known(details@) && lines_within(details@) ==> (r matches Entry::Booked(b)
                && b.income.value() == income_total(details@) && b.outlay.value() == outlay_total(
                details@,
            )),
    {
        let ghost lines = details@;
        let mut bal = Balance { income: Amount::zero(), outlay: Amount::zero() };
        let mut i: usize = 0;
        proof {
            assert(lines.take(0) =~= Seq::<GeneralJournalDTO>::empty());
        }
        while i < details.len()
            invariant
                lines == details@,
                i <= lines.len(),
                lines_wf(lines),
                !tally_halts(lines),
                tally(lines.take(i as int)) == Entry::Booked(bal),
                bal.wf(),
                kinds_known(lines.take(i as int)),
                bal.income.scale <= lines_scale(lines.take(i as int)),
                bal.outlay.scale <= lines_scale(lines.take(i as int)),
                kinds_known(lines) && lines_within(lines) ==> (bal.income.value() == income_total(
                    lines.take(i as int),
                ) && bal.outlay.value() == outlay_total(lines.take(i as int))),
            decreases lines.len() - i,
        {
            let line = &details[i];
            let ghost next = lines.take(i + 1);
            proof {
                assert(next.drop_last() =~= lines.take(i as int));
                assert(next.last() == lines[i as int]);
                if line_incomplete(lines[i as int]) {
                    assert(tally_halts(lines));
                }
                assert(lines[i as int].amount matches Some(a) ==> a.wf());
            }
            let flag = match &line.flag {
                Some(f) => f,
                None => {
                    return Entry::UnknownKind;
                },
            };
            let amount = match &line.amount {
                Some(a) => a,
                None => {
                    return Entry::UnknownKind;
                },
            };
            let e = book(&bal, flag, amount);
            proof {
                lemma_tally_step(lines, i as int, bal, e);
            }
            match e {
                Entry::Booked(n) => {
                    bal = n;
                },
                _ => {
                    proof {
                        lemma_tally_stuck(lines, i + 1);
                    }
                    return e;
                },
            }
            i = i + 1;
        }
        proof {
            assert(lines.take(i as int) =~= lines);
        }
        Entry::Booked(bal)
    }
}

/// Whether a request to add a journal lacks a field that adding needs.
pub open spec fn journal_params_missing(arg: JournalDTO) -> bool {
    ||| arg.monetary_id is None
    ||| arg.means_id is None
    ||| arg.amount_id is None
    ||| arg.details is None
    ||| arg.archive_date is None
}

/// The lines of a journal request, none where it has none.
pub open spec fn details_of(arg: JournalDTO) -> Seq<GeneralJournalDTO> {
    match arg.details {
        Some(d) => d@,
        None => Seq::empty(),
    }
}

/// The error of a request whose caller is not known.
pub fn unknown_user() -> (e: Error)
    ensures
        e.message() == "获取用户信息失败，请登录"@,
        e.code() == util::NOT_AUTHORIZE_CODE,
{
    Error::with_code("获取用户信息失败，请登录", util::NOT_AUTHORIZE_CODE)
}

/// The error of a line whose flag is neither an income nor an outlay.
pub fn unknown_kind() -> (e: Error)
    ensures
        e.message() == "未知的收支类型!"@,
        e.code() == util::CODE_FAIL,
{
    Error::with_code("未知的收支类型!", util::CODE_FAIL)
}

impl FinancialService {
    /// The journal that a request adds for the caller `user` at time `now`:
    /// its lines summed into income and outlay, and `0 + income + outlay`
    /// as its total. Currency, means of payment, summary, date and lines
    /// must be given, and the caller known. `None` where the decimal
    /// arithmetic overflows (there `rust_decimal` panics). Where every line
    /// is an income or an outlay and the running sums stay within the range
    /// of the lines' largest scale, income, outlay and total are exact.
    pub fn add_journal(&self, arg: &JournalDTO, user: &Option<JWTToken>, now: String) -> (r: Option<
        Result<Journal, Error>,
    >)
        requires
            lines_wf(details_of(*arg)),
            !journal_params_missing(*arg) && user is Some ==> !tally_halts(details_of(*arg)),
        ensures
            journal_params_missing(*arg) ==> (r matches Some(Err(e)) && e.message()
                == "支付方式、摘要、交易货币、交易日期和流水明细不能为空!"@ && e.code()
                == util::NOT_PARAMETER_CODE),
            !journal_params_missing(*arg) && user is None ==> (r matches Some(Err(e))
                && e.message() == "获取用户信息失败，请登录"@ && e.code() == util::NOT_AUTHORIZE_CODE),
            !journal_params_missing(*arg) && user is Some ==> match tally(details_of(*arg)) {
                Entry::Overflow => r is None,
                Entry::UnknownKind => (r matches Some(Err(e)) && e.message() == "未知的收支类型!"@
                    && e.code() == util::CODE_FAIL),
                Entry::Booked(b) => match total_of(b) {
                    None => r is None,
                    Some(t) => (r matches Some(Ok(j)) && j == (Journal {
                        id: None,
                        monetary_id: arg.monetary_id,
                        income: Some(b.income),
                        outlay: Some(b.outlay),
                        means_id: arg.means_id,
                        abstract_id: arg.amount_id,
                        total: Some(t),
                        remarks: arg.remarks,
                        archive_date: arg.archive_date,
                        organize: Some(user.unwrap().organize),
                        source: Some(user.unwrap().account),
                        create_time: Some(now),
                        update_time: None,
                    })),
                },
            },
            !journal_params_missing(*arg) && user is Some && kinds_known(details_of(*arg))
                && lines_within(details_of(*arg)) ==> (r matches Some(Ok(j)) && j.income matches Some(i)
                && j.outlay matches Some(o) && j.total matches Some(t) && i.value() == income_total(
                details_of(*arg),
            ) && o.value() == outlay_total(details_of(*arg)) && t.value() == i.value() + o.value()),
    {
        if arg.monetary_id.is_none() || arg.means_id.is_none() || arg.amount_id.is_none()
            || arg.details.is_none() || arg.archive_date.is_none() {
            return Some(
                Err(
                    Error::with_code(
                        "支付方式、摘要、交易货币、交易日期和流水明细不能为空!",
                        util::NOT_PARAMETER_CODE,
                    ),
                ),
            );
        }
        let u = match user {
            Some(u) => u,
            None => {
                return Some(Err(unknown_user()));
            },
        };
        let details = match &arg.details {
            Some(d) => d,
            None => {
                return None;
            },
        };
        let b = match self.tally_lines(details) {
            Entry::Booked(b) => b,
            Entry::Overflow => {
                return None;
            },
            Entry::UnknownKind => {
                return Some(Err(unknown_kind()));
            },
        };
        proof {
            let d = details@;
            if kinds_known(d) && lines_within(d) {
                lemma_lines_scale_bound(d);
                lemma_within_weaken(
                    b.income.value() + b.outlay.value(),
                    larger_scale(b.income, b.outlay),
                    lines_scale(d),
                );
            }
        }
        let t = match total(&b) {
            Some(t) => t,
            None => {
                return None;
            },
        };
        Some(
            Ok(
                Journal {
                    id: None,
                    monetary_id: arg.monetary_id,
                    income: Some(b.income),
                    outlay: Some(b.outlay),
                    means_id: arg.means_id,
                    abstract_id: arg.amount_id,
                    total: Some(t),
                    remarks: arg.remarks.clone(),
                    archive_date: arg.archive_date,
                    organize: Some(u.organize),
                    source: Some(u.account.clone()),
                    create_time: Some(now),
                    update_time: None,
                },
            ),
        )
    }

    /// The line rows of a journal `journal_id`, one for each line of the
    /// request, in order.
    pub fn journal_details(&self, journal_id: Option<u64>, details: &Vec<GeneralJournalDTO>) -> (r: Vec<
        GeneralJournal,
    >)
        ensures
            r.len() == details.len(),
            forall|k: int|
                0 <= k < r.len() ==> #[trigger] r[k] == (GeneralJournal {
                    id: None,
                    journal_id,
                    flag: details[k].flag,
                    amount: details[k].amount,
                    remarks: details[k].remarks,
                }),
    {
        let mut rows: Vec<GeneralJournal> = Vec::new();
        let mut i: usize = 0;
        while i < details.len()
            invariant
                i <= details.len(),
                rows.len() == i,
                forall|k: int|
                    0 <= k < i ==> #[trigger] rows[k] == (GeneralJournal {
                        id: None,
                        journal_id,
                        flag: details[k].flag,
                        amount: details[k].amount,
                        remarks: details[k].remarks,
                    }),
            decreases details.len() - i,
        {
            let line = &details[i];
            rows.push(
                GeneralJournal {
                    id: None,
                    journal_id,
                    flag: line.flag.clone(),
                    amount: line.amount,
                    remarks: line.remarks.clone(),
                },
            );
            i = i + 1;
        }
        rows
    }
}

/// Whether a journal's date lies in the month of `today`; a journal without
/// a date does not.
pub open spec fn in_month(date: Option<Day>, today: Day) -> bool {
    match date {
        Some(d) => d.year == today.year && d.month == today.month,
        None => false,
    }
}

/// Whether a journal's date lies in the month of `today`.
pub fn is_in_month(date: &Option<Day>, today: &Day) -> (r: bool)
    ensures
        r == in_month(*date, *today),
{
    match date {
        Some(d) => d.year == today.year && d.month == today.month,
        None => false,
    }
}

/// Whether the income and outlay that a journal has are decimals.
pub open spec fn journal_wf(j: Journal) -> bool {
    &&& j.income matches Some(i) ==> i.wf()
    &&& j.outlay matches Some(o) ==> o.wf()
}

/// The balance of a journal that has income and outlay.
pub open spec fn balance_of(j: Journal) -> Balance {
    Balance { income: j.income.unwrap(), outlay: j.outlay.unwrap() }
}

/// The row that writes a new balance and total into the journal `exist`,
/// changed by `account` at `now`; the fields it leaves are `None`.
pub open spec fn rebalanced(exist: Journal, b: Balance, t: Amount, account: String, now: String) -> Journal {
    Journal {
        id: exist.id,
        monetary_id: None,
        income: Some(b.income),
        outlay: Some(b.outlay),
        means_id: None,
        abstract_id: None,
        total: Some(t),
        remarks: None,
        archive_date: None,
        organize: exist.organize,
        source: Some(account),
        create_time: None,
        update_time: Some(now),
    }
}

/// The row that writes a new balance and total into the journal `exist`.
fn rebalance(exist: &Journal, b: &Balance, t: Amount, account: &String, now: String) -> (r: Journal)
    ensures
        r == rebalanced(*exist, *b, t, *account, now),
{
    Journal {
        id: exist.id,
        monetary_id: None,
        income: Some(b.income),
        outlay: Some(b.outlay),
        means_id: None,
        abstract_id: None,
        total: Some(t),
        remarks: None,
        archive_date: None,
        organize: exist.organize,
        source: Some(account.clone()),
        create_time: None,
        update_time: Some(now),
    }
}

/// The largest of three scales.
pub open spec fn scale3(a: u32, b: u32, c: u32) -> u32 {
    if a >= b && a >= c {
        a
    } else if b >= c {
        b
    } else {
        c
    }
}

/// The largest of four scales.
pub open spec fn scale4(a: u32, b: u32, c: u32, d: u32) -> u32 {
    if scale3(a, b, c) >= d {
        scale3(a, b, c)
    } else {
        d
    }
}

/// Whether a balance of values `v`, and its total, lie within the range of
/// `scale`.
pub open spec fn balance_within(v: (int, int), scale: u32) -> bool {
    within(v.0, scale) && within(v.1, scale) && within(v.0 + v.1, scale)
}

/// Whether a request on a journal line lacks a field that it needs.
pub open spec fn line_params_missing(arg: GeneralJournalDTO) -> bool {
    ||| arg.journal_id is None
    ||| blank(arg.flag)
    ||| arg.amount is None
    ||| blank(arg.remarks)
}

/// A booked balance lies within the range of a scale: the new balance is
/// exact, its total too.
proof fn lemma_book_exact(b: Balance, flag: Seq<char>, amount: Amount, e: Entry, m: u32)
    requires
        b.wf(),
        amount.wf(),
        is_known_kind(flag),
        b.income.scale <= m,
        b.outlay.scale <= m,
        amount.scale <= m,
        m <= MAX_SCALE,
        within(booked_values(b.income.value(), b.outlay.value(), flag, amount.value()).0, m),
        within(booked_values(b.income.value(), b.outlay.value(), flag, amount.value()).1, m),
        is_income(flag) && sum_fits(b.income, amount) ==> (e matches Entry::Booked(n)
            && n.income.value() == b.income.value() + amount.value() && n.outlay == b.outlay),
        is_outlay(flag) && sum_fits(b.outlay, amount) ==> (e matches Entry::Booked(n)
            && n.outlay.value() == b.outlay.value() + amount.value() && n.income == b.income),
    ensures
        e matches Entry::Booked(n) && n.income.value() == booked_values(
            b.income.value(),
            b.outlay.value(),
            flag,
            amount.value(),
        ).0 && n.outlay.value() == booked_values(
            b.income.value(),
            b.outlay.value(),
            flag,
            amount.value(),
        ).1,
{
    if is_income(flag) {
        assert(flag[0] == '1');
        lemma_sum_fits_within(b.income, amount, m);
    } else {
        lemma_sum_fits_within(b.outlay, amount, m);
    }
}

/// An unbooked balance lies within the range of a scale: the new balance is
/// exact.
proof fn lemma_unbook_exact(b: Balance, flag: Seq<char>, amount: Amount, e: Entry, m: u32)
    requires
        b.wf(),
        amount.wf(),
        is_known_kind(flag),
        b.income.scale <= m,
        b.outlay.scale <= m,
        amount.scale <= m,
        m <= MAX_SCALE,
        within(unbooked_values(b.income.value(), b.outlay.value(), flag, amount.value()).0, m),
        within(unbooked_values(b.income.value(), b.outlay.value(), flag, amount.value()).1, m),
        is_income(flag) && difference_fits(b.income, amount) ==> (e matches Entry::Booked(n)
            && n.income.value() == b.income.value() - amount.value() && n.outlay == b.outlay),
        is_outlay(flag) && difference_fits(b.outlay, amount) ==> (e matches Entry::Booked(n)
            && n.outlay.value() == b.outlay.value() - amount.value() && n.income == b.income),
    ensures
        e matches Entry::Booked(n) && n.income.value() == unbooked_values(
            b.income.value(),
            b.outlay.value(),
            flag,
            amount.value(),
        ).0 && n.outlay.value() == unbooked_values(
            b.income.value(),
            b.outlay.value(),
            flag,
            amount.value(),
        ).1,
{
    if is_income(flag) {
        assert(flag[0] == '1');
        lemma_difference_fits_within(b.income, amount, m);
    } else {
        lemma_difference_fits_within(b.outlay, amount, m);
    }
}

/// Whether a request on a line of the journal `exist` gets past its checks:
/// fields given, caller known, journal found and of the month of `today`.
pub open spec fn line_reached(arg: GeneralJournalDTO, user: Option<JWTToken>, exist: Option<Journal>, today: Day) -> bool {
    &&& !line_params_missing(arg)
    &&& user is Some
    &&& exist is Some
    &&& in_month(exist.unwrap().archive_date, today)
}

/// The values of a balance.
pub open spec fn values_of(b: Balance) -> (int, int) {
    (b.income.value(), b.outlay.value())
}

/// Whether a journal row carries the balance of values `v` and a total of
/// their sum.
pub open spec fn carries_values(j: Journal, v: (int, int)) -> bool {
    &&& j.income matches Some(i) && i.value() == v.0
    &&& j.outlay matches Some(o) && o.value() == v.1
    &&& j.total matches Some(t) && t.value() == v.0 + v.1
}

impl FinancialService {
    /// Adds a line to the journal `exist` of the caller's organization: the
    /// line's amount is added to the journal's income (flag `"1"`) or
    /// outlay (flag `"2"`), and the total is `0 + income + outlay`. Gives
    /// the journal row to write and the line row to insert. Journal, flag,
    /// amount and remarks must be given, the caller known, and the journal
    /// found and of the month of `today`. `None` where the decimal
    /// arithmetic overflows (there `rust_decimal` panics). Where the new
    /// balance and its total lie within the range of the largest scale of
    /// the amounts, the figures are exact.
    pub fn add_general_journal(
        &self,
        arg: &GeneralJournalDTO,
        user: &Option<JWTToken>,
        exist: &Option<Journal>,
        today: Day,
        now: String,
    ) -> (r: Option<Result<(Journal, GeneralJournal), Error>>)
        requires
            arg.amount matches Some(a) ==> a.wf(),
            *exist matches Some(j) ==> journal_wf(j),
            !line_params_missing(*arg) && user is Some && exist is None ==> arg.id is Some,
            !line_params_missing(*arg) && user is Some && exist is Some ==> exist.unwrap().archive_date is Some,
            line_reached(*arg, *user, *exist, today) ==> (exist.unwrap().income is Some
                && exist.unwrap().outlay is Some),
        ensures
            line_params_missing(*arg) ==> (r matches Some(Err(e)) && e.message()
                == "流水号、收支类型、金额和备注不能为空!"@ && e.code() == util::NOT_PARAMETER_CODE),
            !line_params_missing(*arg) && user is None ==> (r matches Some(Err(e))
                && e.message() == "获取用户信息失败，请登录"@ && e.code() == util::NOT_AUTHORIZE_CODE),
            !line_params_missing(*arg) && user is Some && exist is None ==> (r matches Some(Err(e))
                && e.message() == missing_item_message(arg.id.unwrap(), "流水"@) && e.code()
                == util::NOT_EXIST_CODE),
            !line_params_missing(*arg) && user is Some && exist is Some && !in_month(
                exist.unwrap().archive_date,
                today,
            ) ==> (r matches Some(Err(e)) && e.message()
                == "只允许修改本月的流水，历史流水已归档，不允许操作"@ && e.code() == util::CODE_FAIL),
            line_reached(*arg, *user, *exist, today) ==> match booked(
                balance_of(exist.unwrap()),
                arg.flag.unwrap()@,
                arg.amount.unwrap(),
            ) {
                Entry::Overflow => r is None,
                Entry::UnknownKind => (r matches Some(Err(e)) && e.message() == "未知的收支类型!"@
                    && e.code() == util::CODE_FAIL),
                Entry::Booked(b) => match total_of(b) {
                    None => r is None,
                    Some(t) => r == Some(
                        Ok::<(Journal, GeneralJournal), Error>(
                            (
                                rebalanced(exist.unwrap(), b, t, user.unwrap().account, now),
                                GeneralJournal {
                                    id: None,
                                    journal_id: exist.unwrap().id,
                                    flag: arg.flag,
                                    amount: arg.amount,
                                    remarks: arg.remarks,
                                },
                            ),
                        ),
                    ),
                },
            },
            line_reached(*arg, *user, *exist, today) && is_known_kind(arg.flag.unwrap()@)
                && balance_within(
                booked_values(
                    exist.unwrap().income.unwrap().value(),
                    exist.unwrap().outlay.unwrap().value(),
                    arg.flag.unwrap()@,
                    arg.amount.unwrap().value(),
                ),
                scale3(
                    exist.unwrap().income.unwrap().scale,
                    exist.unwrap().outlay.unwrap().scale,
                    arg.amount.unwrap().scale,
                ),
            ) ==> (r matches Some(Ok(rows)) && carries_values(
                rows.0,
                booked_values(
                    exist.unwrap().income.unwrap().value(),
                    exist.unwrap().outlay.unwrap().value(),
                    arg.flag.unwrap()@,
                    arg.amount.unwrap().value(),
                ),
            )),
    {
        if arg.journal_id.is_none() || is_blank(&arg.flag) || arg.amount.is_none() || is_blank(
            &arg.remarks,
        ) {
            return Some(
                Err(Error::with_code("流水号、收支类型、金额和备注不能为空!", util::NOT_PARAMETER_CODE)),
            );
        }
        let u = match user {
            Some(u) => u,
            None => {
                return Some(Err(unknown_user()));
            },
        };
        let j = match exist {
            Some(j) => j,
            None => {
                let id = match arg.id {
                    Some(id) => id,
                    None => 0,
                };
                return Some(Err(missing_item(id, "流水")));
            },
        };
        if !is_in_month(&j.archive_date, &today) {
            return Some(
                Err(Error::from_message("只允许修改本月的流水，历史流水已归档，不允许操作")),
            );
        }
        let bal = match (j.income, j.outlay) {
            (Some(i), Some(o)) => Balance { income: i, outlay: o },
            _ => {
                return None;
            },
        };
        let flag = match &arg.flag {
            Some(f) => f,
            None => {
                return None;
            },
        };
        let amount = match &arg.amount {
            Some(a) => a,
            None => {
                return None;
            },
        };
        let e = book(&bal, flag, amount);
        let ghost m = scale3(bal.income.scale, bal.outlay.scale, amount.scale);
        let ghost fits_all = is_known_kind(flag@) && balance_within(
            booked_values(bal.income.value(), bal.outlay.value(), flag@, amount.value()),
            m,
        );
        proof {
            if fits_all {
                lemma_book_exact(bal, flag@, *amount, e, m);
            }
        }
        let b = match e {
            Entry::Booked(b) => b,
            Entry::Overflow => {
                return None;
            },
            Entry::UnknownKind => {
                return Some(Err(unknown_kind()));
            },
        };
        proof {
            if fits_all {
                lemma_within_weaken(
                    b.income.value() + b.outlay.value(),
                    larger_scale(b.income, b.outlay),
                    m,
                );
            }
        }
        let t = match total(&b) {
            Some(t) => t,
            None => {
                return None;
            },
        };
        let row = rebalance(j, &b, t, &u.account, now);
        Some(
            Ok(
                (
                    row,
                    GeneralJournal {
                        id: None,
                        journal_id: j.id,
                        flag: arg.flag.clone(),
                        amount: arg.amount,
                        remarks: arg.remarks.clone(),
                    },
                ),
            ),
        )
    }
}

/// Whether a request to change a journal lacks a field that it needs.
pub open spec fn journal_edit_params_missing(arg: JournalDTO) -> bool {
    ||| arg.id is None
    ||| arg.monetary_id is None
    ||| arg.means_id is None
    ||| arg.amount_id is None
    ||| arg.archive_date is None
}

/// The balance after a line `(from_flag, from_amount)` is replaced by
/// `(flag, amount)`: the old line taken out, the new one booked.
pub open spec fn rebooked(b: Balance, from_flag: Seq<char>, from_amount: Amount, flag: Seq<char>, amount: Amount) -> Entry {
    match unbooked(b, from_flag, from_amount) {
        Entry::Booked(m) => booked(m, flag, amount),
        e => e,
    }
}

/// The values of income and outlay after a line of value `from_amount` is
/// replaced by one of value `amount`.
pub open spec fn rebooked_values(
    income: int,
    outlay: int,
    from_flag: Seq<char>,
    from_amount: int,
    flag: Seq<char>,
    amount: int,
) -> (int, int) {
    let m = unbooked_values(income, outlay, from_flag, from_amount);
    booked_values(m.0, m.1, flag, amount)
}

/// Whether a line row carries a flag and a decimal amount.
pub open spec fn line_wf(g: GeneralJournal) -> bool {
    g.amount matches Some(a) ==> a.wf()
}

/// Whether a request to change a line of the journal `exist` gets past its
/// checks: fields given, caller known, journal found and of the month of
/// `today`, line found.
pub open spec fn line_edit_reached(
    arg: GeneralJournalDTO,
    user: Option<JWTToken>,
    exist: Option<Journal>,
    line: Option<GeneralJournal>,
    today: Day,
) -> bool {
    &&& arg.id is Some
    &&& line_reached(arg, user, exist, today)
    &&& line is Some
}

/// What deleting a journal line does.
#[derive(Clone, Debug)]
pub enum LineRemoval {
    /// The line was the journal's last: the whole journal goes.
    WholeJournal,
    /// The line goes, and the journal gets this row: its new balance.
    LineOnly(Journal),
}

/// Whether a request to delete a line gets past its checks: line found,
/// caller known, journal found and of the month of `today`.
pub open spec fn line_delete_reached(
    line: Option<GeneralJournal>,
    user: Option<JWTToken>,
    exist: Option<Journal>,
    today: Day,
) -> bool {
    &&& line is Some
    &&& user is Some
    &&& exist is Some
    &&& in_month(exist.unwrap().archive_date, today)
}

impl FinancialService {
    /// The row that a request writes into the journal `exist` of the
    /// caller's organization: currency, means of payment, summary, remarks
    /// and date are replaced; income, outlay and total stay as they are.
    /// Id, currency, means of payment, summary and date must be given, the
    /// caller known, and the journal found and of the month of `today`.
    pub fn edit_journal(
        &self,
        arg: &JournalDTO,
        user: &Option<JWTToken>,
        exist: &Option<Journal>,
        today: Day,
        now: String,
    ) -> (r: Result<Journal, Error>)
        requires
            !journal_edit_params_missing(*arg) && user is Some && exist is Some
                ==> exist.unwrap().archive_date is Some,
        ensures
            journal_edit_params_missing(*arg) ==> (r matches Err(e) && e.message()
                == "支付方式、摘要、交易货币、交易日期和流水明细不能为空!"@ && e.code()
                == util::NOT_PARAMETER_CODE),
            !journal_edit_params_missing(*arg) && user is None ==> (r matches Err(e) && e.message()
                == "获取用户信息失败，请登录"@ && e.code() == util::NOT_AUTHORIZE_CODE),
            !journal_edit_params_missing(*arg) && user is Some && exist is None ==> (r matches Err(e)
                && e.message() == missing_item_message(arg.id.unwrap(), "流水"@) && e.code()
                == util::NOT_EXIST_CODE),
            !journal_edit_params_missing(*arg) && user is Some && exist is Some && !in_month(
                exist.unwrap().archive_date,
                today,
            ) ==> (r matches Err(e) && e.message()
                == "只允许修改本月的流水，历史流水已归档，不允许操作"@ && e.code() == util::CODE_FAIL),
            !journal_edit_params_missing(*arg) && user is Some && exist is Some && in_month(
                exist.unwrap().archive_date,
                today,
            ) ==> r == Ok::<Journal, Error>(
                Journal {
                    id: exist.unwrap().id,
                    monetary_id: arg.monetary_id,
                    income: None,
                    outlay: None,
                    means_id: arg.means_id,
                    abstract_id: arg.amount_id,
                    total: None,
                    remarks: arg.remarks,
                    archive_date: arg.archive_date,
                    organize: exist.unwrap().organize,
                    source: Some(user.unwrap().account),
                    create_time: None,
                    update_time: Some(now),
                },
            ),
    {
        if arg.id.is_none() || arg.monetary_id.is_none() || arg.means_id.is_none()
            || arg.amount_id.is_none() || arg.archive_date.is_none() {
            return Err(
                Error::with_code(
                    "支付方式、摘要、交易货币、交易日期和流水明细不能为空!",
                    util::NOT_PARAMETER_CODE,
                ),
            );
        }
        let u = match user {
            Some(u) => u,
            None => {
                return Err(unknown_user());
            },
        };
        let j = match exist {
            Some(j) => j,
            None => {
                let id = match arg.id {
                    Some(id) => id,
                    None => 0,
                };
                return Err(missing_item(id, "流水"));
            },
        };
        if !is_in_month(&j.archive_date, &today) {
            return Err(Error::from_message("只允许修改本月的流水，历史流水已归档，不允许操作"));
        }
        Ok(
            Journal {
                id: j.id,
                monetary_id: arg.monetary_id,
                income: None,
                outlay: None,
                means_id: arg.means_id,
                abstract_id: arg.amount_id,
                total: None,
                remarks: arg.remarks.clone(),
                archive_date: arg.archive_date,
                organize: j.organize,
                source: Some(u.account.clone()),
                create_time: None,
                update_time: Some(now),
            },
        )
    }

    /// Whether the journal `exist` of the caller's organization may be
    /// deleted, with its lines: the caller known, the journal found and of
    /// the month of `today`.
    pub fn delete_journal(&self, id: u64, user: &Option<JWTToken>, exist: &Option<Journal>, today: Day) -> (r:
        Result<(), Error>)
        requires
            user is Some && exist is Some ==> exist.unwrap().archive_date is Some,
        ensures
            user is None ==> (r matches Err(e) && e.message() == "获取用户信息失败，请登录"@
                && e.code() == util::NOT_AUTHORIZE_CODE),
            user is Some && exist is None ==> (r matches Err(e) && e.message()
                == missing_item_message(id, "流水"@) && e.code() == util::NOT_EXIST_CODE),
            user is Some && exist is Some && !in_month(exist.unwrap().archive_date, today) ==> (r matches Err(
                e,
            ) && e.message() == "只允许删除本月的流水，历史流水已归档，不允许操作"@ && e.code()
                == util::CODE_FAIL),
            user is Some && exist is Some && in_month(exist.unwrap().archive_date, today) ==> r is Ok,
    {
        if user.is_none() {
            return Err(unknown_user());
        }
        let j = match exist {
            Some(j) => j,
            None => {
                return Err(missing_item(id, "流水"));
            },
        };
        if !is_in_month(&j.archive_date, &today) {
            return Err(Error::from_message("只允许删除本月的流水，历史流水已归档，不允许操作"));
        }
        Ok(())
    }
}

impl FinancialService {
    /// Changes the line `line` of the journal `exist`: the old line's
    /// amount is taken off the journal's income or outlay (by its flag), the
    /// new amount added (by the new flag), and the total is `0 + income +
    /// outlay`. Gives the journal row and the line row to write. Id,
    /// journal, flag, amount and remarks must be given, the caller known,
    /// the journal found and of the month of `today`, and the line found.
    /// `None` where the decimal arithmetic overflows (there `rust_decimal`
    /// panics). Where the balances between and after lie within the range
    /// of the largest scale of the amounts, the figures are exact.
    pub fn edit_general_journal(
        &self,
        arg: &GeneralJournalDTO,
        user: &Option<JWTToken>,
        exist: &Option<Journal>,
        line: &Option<GeneralJournal>,
        today: Day,
        now: String,
    ) -> (r: Option<Result<(Journal, GeneralJournal), Error>>)
        requires
            arg.amount matches Some(a) ==> a.wf(),
            *exist matches Some(j) ==> journal_wf(j),
            *line matches Some(g) ==> line_wf(g),
            arg.id is Some && !line_params_missing(*arg) && user is Some && exist is Some
                ==> exist.unwrap().archive_date is Some,
            line_edit_reached(*arg, *user, *exist, *line, today) ==> (exist.unwrap().income is Some
                && exist.unwrap().outlay is Some && line.unwrap().flag is Some
                && line.unwrap().amount is Some),
        ensures
            arg.id is None || line_params_missing(*arg) ==> (r matches Some(Err(e)) && e.message()
                == "流水号、收支类型、金额和备注不能为空!"@ && e.code() == util::NOT_PARAMETER_CODE),
            arg.id is Some && !line_params_missing(*arg) && user is None ==> (r matches Some(Err(e))
                && e.message() == "获取用户信息失败，请登录"@ && e.code() == util::NOT_AUTHORIZE_CODE),
            arg.id is Some && !line_params_missing(*arg) && user is Some && exist is None ==> (r matches Some(
                Err(e),
            ) && e.message() == missing_item_message(arg.id.unwrap(), "流水"@) && e.code()
                == util::NOT_EXIST_CODE),
            arg.id is Some && !line_params_missing(*arg) && user is Some && exist is Some && !in_month(
                exist.unwrap().archive_date,
                today,
            ) ==> (r matches Some(Err(e)) && e.message()
                == "只允许修改本月的流水，历史流水已归档，不允许操作"@ && e.code() == util::CODE_FAIL),
            arg.id is Some && line_reached(*arg, *user, *exist, today) && line is None ==> (r matches Some(
                Err(e),
            ) && e.message() == missing_item_message(arg.id.unwrap(), "流水明细"@) && e.code()
                == util::NOT_EXIST_CODE),
            line_edit_reached(*arg, *user, *exist, *line, today) ==> match rebooked(
                balance_of(exist.unwrap()),
                line.unwrap().flag.unwrap()@,
                line.unwrap().amount.unwrap(),
                arg.flag.unwrap()@,
                arg.amount.unwrap(),
            ) {
                Entry::Overflow => r is None,
                Entry::UnknownKind => (r matches Some(Err(e)) && e.message() == "未知的收支类型!"@
                    && e.code() == util::CODE_FAIL),
                Entry::Booked(b) => match total_of(b) {
                    None => r is None,
                    Some(t) => r == Some(
                        Ok::<(Journal, GeneralJournal), Error>(
                            (
                                rebalanced(exist.unwrap(), b, t, user.unwrap().account, now),
                                GeneralJournal {
                                    id: arg.id,
                                    journal_id: exist.unwrap().id,
                                    flag: arg.flag,
                                    amount: arg.amount,
                                    remarks: arg.remarks,
                                },
                            ),
                        ),
                    ),
                },
            },
            line_edit_reached(*arg, *user, *exist, *line, today) && is_known_kind(
                line.unwrap().flag.unwrap()@,
            ) && is_known_kind(arg.flag.unwrap()@) && within(
                unbooked_values(
                    exist.unwrap().income.unwrap().value(),
                    exist.unwrap().outlay.unwrap().value(),
                    line.unwrap().flag.unwrap()@,
                    line.unwrap().amount.unwrap().value(),
                ).0,
                scale4(
                    exist.unwrap().income.unwrap().scale,
                    exist.unwrap().outlay.unwrap().scale,
                    line.unwrap().amount.unwrap().scale,
                    arg.amount.unwrap().scale,
                ),
            ) && within(
                unbooked_values(
                    exist.unwrap().income.unwrap().value(),
                    exist.unwrap().outlay.unwrap().value(),
                    line.unwrap().flag.unwrap()@,
                    line.unwrap().amount.unwrap().value(),
                ).1,
                scale4(
                    exist.unwrap().income.unwrap().scale,
                    exist.unwrap().outlay.unwrap().scale,
                    line.unwrap().amount.unwrap().scale,
                    arg.amount.unwrap().scale,
                ),
            ) && balance_within(
                rebooked_values(
                    exist.unwrap().income.unwrap().value(),
                    exist.unwrap().outlay.unwrap().value(),
                    line.unwrap().flag.unwrap()@,
                    line.unwrap().amount.unwrap().value(),
                    arg.flag.unwrap()@,
                    arg.amount.unwrap().value(),
                ),
                scale4(
                    exist.unwrap().income.unwrap().scale,
                    exist.unwrap().outlay.unwrap().scale,
                    line.unwrap().amount.unwrap().scale,
                    arg.amount.unwrap().scale,
                ),
            ) ==> (r matches Some(Ok(rows)) && carries_values(
                rows.0,
                rebooked_values(
                    exist.unwrap().income.unwrap().value(),
                    exist.unwrap().outlay.unwrap().value(),
                    line.unwrap().flag.unwrap()@,
                    line.unwrap().amount.unwrap().value(),
                    arg.flag.unwrap()@,
                    arg.amount.unwrap().value(),
                ),
            )),
    {
        if arg.id.is_none() || arg.journal_id.is_none() || is_blank(&arg.flag) || arg.amount.is_none()
            || is_blank(&arg.remarks) {
            return Some(
                Err(Error::with_code("流水号、收支类型、金额和备注不能为空!", util::NOT_PARAMETER_CODE)),
            );
        }
        let id = match arg.id {
            Some(id) => id,
            None => 0,
        };
        let u = match user {
            Some(u) => u,
            None => {
                return Some(Err(unknown_user()));
            },
        };
        let j = match exist {
            Some(j) => j,
            None => {
                return Some(Err(missing_item(id, "流水")));
            },
        };
        if !is_in_month(&j.archive_date, &today) {
            return Some(
                Err(Error::from_message("只允许修改本月的流水，历史流水已归档，不允许操作")),
            );
        }
        let g = match line {
            Some(g) => g,
            None => {
                return Some(Err(missing_item(id, "流水明细")));
            },
        };
        let bal = match (j.income, j.outlay) {
            (Some(i), Some(o)) => Balance { income: i, outlay: o },
            _ => {
                return None;
            },
        };
        let (from_flag, from_amount) = match (&g.flag, &g.amount) {
            (Some(f), Some(a)) => (f, a),
            _ => {
                return None;
            },
        };
        let flag = match &arg.flag {
            Some(f) => f,
            None => {
                return None;
            },
        };
        let amount = match &arg.amount {
            Some(a) => a,
            None => {
                return None;
            },
        };
        let ghost m = scale4(bal.income.scale, bal.outlay.scale, from_amount.scale, amount.scale);
        let ghost v0 = values_of(bal);
        let ghost v1 = unbooked_values(v0.0, v0.1, from_flag@, from_amount.value());
        let ghost fits_all = is_known_kind(from_flag@) && is_known_kind(flag@) && within(v1.0, m)
            && within(v1.1, m) && balance_within(
            booked_values(v1.0, v1.1, flag@, amount.value()),
            m,
        );
        let e1 = unbook(&bal, from_flag, from_amount);
        proof {
            if fits_all {
                lemma_unbook_exact(bal, from_flag@, *from_amount, e1, m);
            }
        }
        let mid = match e1 {
            Entry::Booked(b) => b,
            Entry::Overflow => {
                return None;
            },
            Entry::UnknownKind => {
                return Some(Err(unknown_kind()));
            },
        };
        let e2 = book(&mid, flag, amount);
        proof {
            if fits_all {
                lemma_book_exact(mid, flag@, *amount, e2, m);
            }
        }
        let b = match e2 {
            Entry::Booked(b) => b,
            Entry::Overflow => {
                return None;
            },
            Entry::UnknownKind => {
                return Some(Err(unknown_kind()));
            },
        };
        proof {
            if fits_all {
                lemma_within_weaken(
                    b.income.value() + b.outlay.value(),
                    larger_scale(b.income, b.outlay),
                    m,
                );
            }
        }
        let t = match total(&b) {
            Some(t) => t,
            None => {
                return None;
            },
        };
        let row = rebalance(j, &b, t, &u.account, now);
        Some(
            Ok(
                (
                    row,
                    GeneralJournal {
                        id: arg.id,
                        journal_id: j.id,
                        flag: arg.flag.clone(),
                        amount: arg.amount,
                        remarks: arg.remarks.clone(),
                    },
                ),
            ),
        )
    }

    /// Deletes the line `line` of the journal `exist`. Where the journal has
    /// more lines than this one (`count` of them), the line's amount is taken
    /// off the journal's income or outlay (by its flag) and the total is
    /// `0 + income + outlay`: the line goes and the journal gets that row.
    /// Otherwise the whole journal goes. The line must be found, the caller
    /// known, and the journal found and of the month of `today`. `None`
    /// where the decimal arithmetic overflows (there `rust_decimal` panics).
    /// Where the balance after lies within the range of the largest scale of
    /// the amounts, the figures are exact.
    pub fn delete_general_journal(
        &self,
        id: u64,
        line: &Option<GeneralJournal>,
        user: &Option<JWTToken>,
        exist: &Option<Journal>,
        count: u64,
        today: Day,
        now: String,
    ) -> (r: Option<Result<LineRemoval, Error>>)
        requires
            *exist matches Some(j) ==> journal_wf(j),
            *line matches Some(g) ==> line_wf(g),
            line is Some && user is Some && exist is None ==> line.unwrap().journal_id is Some,
            line is Some && user is Some && exist is Some ==> exist.unwrap().archive_date is Some,
            line_delete_reached(*line, *user, *exist, today) && count > 1 ==> (
            exist.unwrap().income is Some && exist.unwrap().outlay is Some
                && line.unwrap().flag is Some && line.unwrap().amount is Some),
        ensures
            line is None ==> (r matches Some(Err(e)) && e.message() == missing_item_message(
                id,
                "流水明细"@,
            ) && e.code() == util::NOT_EXIST_CODE),
            line is Some && user is None ==> (r matches Some(Err(e)) && e.message()
                == "获取用户信息失败，请登录"@ && e.code() == util::NOT_AUTHORIZE_CODE),
            line is Some && user is Some && exist is None ==> (r matches Some(Err(e)) && e.message()
                == missing_item_message(line.unwrap().journal_id.unwrap(), "流水"@) && e.code()
                == util::NOT_EXIST_CODE),
            line is Some && user is Some && exist is Some && !in_month(exist.unwrap().archive_date, today)
                ==> (r matches Some(Err(e)) && e.message()
                == "只允许修改本月的流水，历史流水已归档，不允许操作"@ && e.code() == util::CODE_FAIL),
            line_delete_reached(*line, *user, *exist, today) && count <= 1 ==> r == Some(
                Ok::<LineRemoval, Error>(LineRemoval::WholeJournal),
            ),
            line_delete_reached(*line, *user, *exist, today) && count > 1 ==> match unbooked(
                balance_of(exist.unwrap()),
                line.unwrap().flag.unwrap()@,
                line.unwrap().amount.unwrap(),
            ) {
                Entry::Overflow => r is None,
                Entry::UnknownKind => (r matches Some(Err(e)) && e.message() == "未知的收支类型!"@
                    && e.code() == util::CODE_FAIL),
                Entry::Booked(b) => match total_of(b) {
                    None => r is None,
                    Some(t) => r == Some(
                        Ok::<LineRemoval, Error>(
                            LineRemoval::LineOnly(
                                rebalanced(exist.unwrap(), b, t, user.unwrap().account, now),
                            ),
                        ),
                    ),
                },
            },
            line_delete_reached(*line, *user, *exist, today) && count > 1 && is_known_kind(
                line.unwrap().flag.unwrap()@,
            ) && balance_within(
                unbooked_values(
                    exist.unwrap().income.unwrap().value(),
                    exist.unwrap().outlay.unwrap().value(),
                    line.unwrap().flag.unwrap()@,
                    line.unwrap().amount.unwrap().value(),
                ),
                scale3(
                    exist.unwrap().income.unwrap().scale,
                    exist.unwrap().outlay.unwrap().scale,
                    line.unwrap().amount.unwrap().scale,
                ),
            ) ==> (r matches Some(Ok(LineRemoval::LineOnly(j))) && carries_values(
                j,
                unbooked_values(
                    exist.unwrap().income.unwrap().value(),
                    exist.unwrap().outlay.unwrap().value(),
                    line.unwrap().flag.unwrap()@,
                    line.unwrap().amount.unwrap().value(),
                ),
            )),
    {
        let g = match line {
            Some(g) => g,
            None => {
                return Some(Err(missing_item(id, "流水明细")));
            },
        };
        let u = match user {
            Some(u) => u,
            None => {
                return Some(Err(unknown_user()));
            },
        };
        let j = match exist {
            Some(j) => j,
            None => {
                let journal_id = match g.journal_id {
                    Some(i) => i,
                    None => 0,
                };
                return Some(Err(missing_item(journal_id, "流水")));
            },
        };
        if !is_in_month(&j.archive_date, &today) {
            return Some(
                Err(Error::from_message("只允许修改本月的流水，历史流水已归档，不允许操作")),
            );
        }
        if count <= 1 {
            return Some(Ok(LineRemoval::WholeJournal));
        }
        let bal = match (j.income, j.outlay) {
            (Some(i), Some(o)) => Balance { income: i, outlay: o },
            _ => {
                return None;
            },
        };
        let (flag, amount) = match (&g.flag, &g.amount) {
            (Some(f), Some(a)) => (f, a),
            _ => {
                return None;
            },
        };
        let ghost m = scale3(bal.income.scale, bal.outlay.scale, amount.scale);
        let ghost fits_all = is_known_kind(flag@) && balance_within(
            unbooked_values(bal.income.value(), bal.outlay.value(), flag@, amount.value()),
            m,
        );
        let e = unbook(&bal, flag, amount);
        proof {
            if fits_all {
                lemma_unbook_exact(bal, flag@, *amount, e, m);
            }
        }
        let b = match e {
            Entry::Booked(b) => b,
            Entry::Overflow => {
                return None;
            },
            Entry::UnknownKind => {
                return Some(Err(unknown_kind()));
            },
        };
        proof {
            if fits_all {
                lemma_within_weaken(
                    b.income.value() + b.outlay.value(),
                    larger_scale(b.income, b.outlay),
                    m,
                );
            }
        }
        let t = match total(&b) {
            Some(t) => t,
            None => {
                return None;
            },
        };
        Some(Ok(LineRemoval::LineOnly(rebalance(j, &b, t, &u.account, now))))
    }
}

/// The exact income and outlay of lines.
pub open spec fn lines_values(lines: Seq<GeneralJournalDTO>) -> (int, int) {
    (income_total(lines), outlay_total(lines))
}

/// The exact sum of the amounts of all the lines.
pub open spec fn amounts_total(lines: Seq<GeneralJournalDTO>) -> int
    decreases lines.len(),
{
    if lines.len() == 0 {
        0
    } else {
        amounts_total(lines.drop_last()) + line_amount(lines.last()).value()
    }
}

/// Taking a line out undoes booking it: a line added to a journal and then
/// deleted leaves the journal's income and outlay as they were.
pub proof fn lemma_unbook_undoes_book(income: int, outlay: int, flag: Seq<char>, amount: int)
    ensures
        ({
            let v = booked_values(income, outlay, flag, amount);
            unbooked_values(v.0, v.1, flag, amount)
        }) == (income, outlay),
{
}

/// Booking a line undoes taking it out: a line deleted from a journal and
/// then added again leaves the journal's income and outlay as they were.
pub proof fn lemma_book_undoes_unbook(income: int, outlay: int, flag: Seq<char>, amount: int)
    ensures
        ({
            let v = unbooked_values(income, outlay, flag, amount);
            booked_values(v.0, v.1, flag, amount)
        }) == (income, outlay),
{
}

/// Changing a line into itself leaves the journal's income and outlay as
/// they were.
pub proof fn lemma_rebook_same_line(income: int, outlay: int, flag: Seq<char>, amount: int)
    ensures
        rebooked_values(income, outlay, flag, amount, flag, amount) == (income, outlay),
{
}

/// Adding a line to a journal gives the income and outlay that the journal
/// would have had with that line last among its lines from the start.
pub proof fn lemma_added_line_extends_lines(lines: Seq<GeneralJournalDTO>, line: GeneralJournalDTO)
    ensures
        lines_values(lines.push(line)) == booked_values(
            income_total(lines),
            outlay_total(lines),
            flag_of(line),
            line_amount(line).value(),
        ),
{
    assert(lines.push(line).drop_last() =~= lines);
    if is_income(flag_of(line)) {
        assert(flag_of(line)[0] == '1');
    }
}

/// Deleting a line from a journal gives the income and outlay of the
/// journal made without that line.
pub proof fn lemma_deleted_line_shrinks_lines(lines: Seq<GeneralJournalDTO>, i: int)
    requires
        0 <= i < lines.len(),
    ensures
        lines_values(lines.remove(i)) == unbooked_values(
            income_total(lines),
            outlay_total(lines),
            flag_of(lines[i]),
            line_amount(lines[i]).value(),
        ),
    decreases lines.len(),
{
    let last = lines.last();
    if i == lines.len() - 1 {
        assert(lines.remove(i) =~= lines.drop_last());
        if is_income(flag_of(last)) {
            assert(flag_of(last)[0] == '1');
        }
    } else {
        let shorter = lines.drop_last();
        lemma_deleted_line_shrinks_lines(shorter, i);
        assert(lines.remove(i).drop_last() =~= shorter.remove(i));
        assert(lines.remove(i).last() == last);
        assert(shorter[i] == lines[i]);
        if is_income(flag_of(last)) {
            assert(flag_of(last)[0] == '1');
        }
        if is_income(flag_of(lines[i])) {
            assert(flag_of(lines[i])[0] == '1');
        }
    }
}

/// Where every line is an income or an outlay, income plus outlay is the
/// sum of all the lines' amounts: the journal's total counts every line
/// once.
pub proof fn lemma_total_counts_every_line(lines: Seq<GeneralJournalDTO>)
    requires
        kinds_known(lines),
    ensures
        income_total(lines) + outlay_total(lines) == amounts_total(lines),
    decreases lines.len(),
{
    if lines.len() > 0 {
        let shorter = lines.drop_last();
        assert(kinds_known(shorter)) by {
            assert forall|j: int| 0 <= j < shorter.len() implies is_known_kind(
                flag_of(#[trigger] shorter[j]),
            ) by {
                assert(shorter[j] == lines[j]);
            }
        }
        lemma_total_counts_every_line(shorter);
        assert(lines.last() == lines[lines.len() - 1]);
        if is_income(flag_of(lines.last())) {
            assert(flag_of(lines.last())[0] == '1');
        }
    }
}

/// Replacing a line of a journal gives the income and outlay of the journal
/// made with the new line in its place.
pub proof fn lemma_replaced_line_rebooks_lines(lines: Seq<GeneralJournalDTO>, i: int, line: GeneralJournalDTO)
    requires
        0 <= i < lines.len(),
    ensures
        lines_values(lines.update(i, line)) == rebooked_values(
            income_total(lines),
            outlay_total(lines),
            flag_of(lines[i]),
            line_amount(lines[i]).value(),
            flag_of(line),
            line_amount(line).value(),
        ),
    decreases lines.len(),
{
    let last = lines.last();
    if is_income(flag_of(line)) {
        assert(flag_of(line)[0] == '1');
    }
    if is_income(flag_of(lines[i])) {
        assert(flag_of(lines[i])[0] == '1');
    }
    if is_income(flag_of(last)) {
        assert(flag_of(last)[0] == '1');
    }
    if i == lines.len() - 1 {
        assert(lines.update(i, line).drop_last() =~= lines.drop_last());
        assert(lines.update(i, line).last() == line);
    } else {
        let shorter = lines.drop_last();
        lemma_replaced_line_rebooks_lines(shorter, i, line);
        assert(lines.update(i, line).drop_last() =~= shorter.update(i, line));
        assert(lines.update(i, line).last() == last);
        assert(shorter[i] == lines[i]);
    }
}

/// Whether a journal row carries the income and outlay of `lines`, and
/// their sum as its total: the journal's invariant over its stored lines.
pub open spec fn sums_lines(j: Journal, lines: Seq<GeneralJournalDTO>) -> bool {
    carries_values(j, lines_values(lines))
}

/// Adding a line keeps the journal's invariant: where a journal carries the
/// sums of its lines, the row that `add_general_journal` writes (its new
/// balance booked with the line given) carries the sums of the lines with
/// the new one.
pub proof fn lemma_add_line_keeps_journal_sums(
    exist: Journal,
    lines: Seq<GeneralJournalDTO>,
    arg: GeneralJournalDTO,
    written: Journal,
)
    requires
        sums_lines(exist, lines),
        carries_values(
            written,
            booked_values(
                exist.income.unwrap().value(),
                exist.outlay.unwrap().value(),
                flag_of(arg),
                line_amount(arg).value(),
            ),
        ),
    ensures
        sums_lines(written, lines.push(arg)),
{
    lemma_added_line_extends_lines(lines, arg);
}

/// Changing a line keeps the journal's invariant: where a journal carries
/// the sums of its lines, the row that `edit_general_journal` writes (the
/// old line taken out, the new one booked) carries the sums of the lines
/// with the new line in place of the old.
pub proof fn lemma_edit_line_keeps_journal_sums(
    exist: Journal,
    lines: Seq<GeneralJournalDTO>,
    i: int,
    arg: GeneralJournalDTO,
    written: Journal,
)
    requires
        sums_lines(exist, lines),
        0 <= i < lines.len(),
        carries_values(
            written,
            rebooked_values(
                exist.income.unwrap().value(),
                exist.outlay.unwrap().value(),
                flag_of(lines[i]),
                line_amount(lines[i]).value(),
                flag_of(arg),
                line_amount(arg).value(),
            ),
        ),
    ensures
        sums_lines(written, lines.update(i, arg)),
{
    lemma_replaced_line_rebooks_lines(lines, i, arg);
}

/// Deleting a line keeps the journal's invariant: where a journal carries
/// the sums of its lines, the row that `delete_general_journal` writes (the
/// line taken out) carries the sums of the lines left.
pub proof fn lemma_delete_line_keeps_journal_sums(
    exist: Journal,
    lines: Seq<GeneralJournalDTO>,
    i: int,
    written: Journal,
)
    requires
        sums_lines(exist, lines),
        0 <= i < lines.len(),
        carries_values(
            written,
            unbooked_values(
                exist.income.unwrap().value(),
                exist.outlay.unwrap().value(),
                flag_of(lines[i]),
                line_amount(lines[i]).value(),
            ),
        ),
    ensures
        sums_lines(written, lines.remove(i)),
{
    lemma_deleted_line_shrinks_lines(lines, i);
}

impl FinancialService {
    /// The action after a write of adding a journal: the journal is saved
    /// first, its lines (`lines`) last; either failing rolls both back with
    /// "保存流水失败", and the lines' rows are the answer once both are
    /// committed.
    pub fn add_journal_write(&self, lines: bool, written: Option<u64>) -> (a: TxAction)
        ensures
            is_write_action(a, written, lines, "保存流水失败"@),
    {
        after_write(written, lines, "保存流水失败")
    }
}

} // verus!
