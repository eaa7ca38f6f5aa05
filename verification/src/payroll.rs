//! The interval-based recurring-payment scheduler. An organization runs
//! payrolls against its treasury account; each member accrues one period's
//! rate per elapsed interval, paid with the same debit/credit discipline as a
//! transfer. This component operates on the plaintext-analog ledger records,
//! whose values are public.

use vstd::prelude::*;
use crate::analog;
use crate::errors::CvctError;
use crate::dispatch::EncEngine;
use crate::ledger::{same_account_identity, CvctAccount, CvctMint};

verus! {

/// An organization: the authority that administers payrolls, its mint and
/// its treasury account.
#[derive(Clone, Copy, Debug)]
pub struct Organization {
    /// Address of this organization record.
    pub addr: u64,
    /// Identity allowed to administer the organization.
    pub authority: u64,
    /// The confidential mint the organization pays in.
    pub cvct_mint: u64,
    /// Address of the treasury account payrolls draw from.
    pub cvct_treasury_vault: u64,
}

/// A recurring payroll of one organization.
#[derive(Clone, Copy, Debug)]
pub struct Payroll {
    /// Address of this payroll record.
    pub addr: u64,
    /// The organization this payroll belongs to.
    pub org: u64,
    /// Seconds between two payments of one period.
    pub interval: i64,
    /// When the payroll last ran.
    pub last_run: i64,
    /// Whether the payroll currently pays out.
    pub active: bool,
}

/// One member of a payroll, paid `rate` per elapsed interval.
#[derive(Clone, Copy, Debug)]
pub struct PayrollMember {
    /// Address of this member record.
    pub addr: u64,
    /// The payroll this member belongs to.
    pub payroll: u64,
    /// Address of the member's wallet account.
    pub cvct_wallet: u64,
    /// Amount paid per interval.
    pub rate: u64,
    /// When the member was last paid; zero if never.
    pub last_paid: i64,
    /// Whether the member currently accrues payments.
    pub active: bool,
}

/// Create an organization around a mint and a treasury account.
pub fn init_org(
    org_addr: u64,
    authority: u64,
    cvct_mint: &CvctMint,
    treasury_vault: &CvctAccount,
) -> (r: Organization)
    ensures
        r == (Organization {
            addr: org_addr,
            authority,
            cvct_mint: cvct_mint.addr,
            cvct_treasury_vault: treasury_vault.addr,
        }),
{
    Organization {
        addr: org_addr,
        authority,
        cvct_mint: cvct_mint.addr,
        cvct_treasury_vault: treasury_vault.addr,
    }
}

/// Create the organization's treasury: an account owned by the organization,
/// with a freshly encrypted zero balance.
pub fn init_org_treasury(
    engine: &mut EncEngine,
    org: &Organization,
    treasury_addr: u64,
    admin: u64,
    cvct_mint: &CvctMint,
) -> (r: Result<CvctAccount, CvctError>)
    requires
        old(engine).calls < u64::MAX,
    ensures
        org.authority != admin ==> r == Err::<CvctAccount, CvctError>(CvctError::Unauthorized),
        org.authority == admin && cvct_mint.addr != org.cvct_mint ==> r == Err::<
            CvctAccount,
            CvctError,
        >(CvctError::InvalidVault),
        org.authority == admin && cvct_mint.addr == org.cvct_mint ==> r is Ok,
        r is Err ==> *final(engine) == *old(engine),
        r matches Ok(t) ==> t == (CvctAccount {
            addr: treasury_addr,
            owner: org.addr,
            cvct_mint: cvct_mint.addr,
            balance: t.balance,
        }) && t.balance.decrypted() == 0,
        r is Ok ==> final(engine).key == old(engine).key && final(engine).calls == old(
            engine,
        ).calls + 1,
{
    if org.authority != admin {
        return Err(CvctError::Unauthorized);
    }
    if cvct_mint.addr != org.cvct_mint {
        return Err(CvctError::InvalidVault);
    }
    let zero_balance = engine.as_euint128(0);
    Ok(CvctAccount {
        addr: treasury_addr,
        owner: org.addr,
        cvct_mint: cvct_mint.addr,
        balance: zero_balance,
    })
}

/// Create a payroll for an organization, initially active and never run.
pub fn create_payroll(org: &Organization, payroll_addr: u64, admin: u64, interval: i64) -> (r:
    Result<Payroll, CvctError>)
    ensures
        org.authority != admin ==> r == Err::<Payroll, CvctError>(CvctError::Unauthorized),
        org.authority == admin ==> r == Ok::<Payroll, CvctError>(
            Payroll { addr: payroll_addr, org: org.addr, interval, last_run: 0, active: true },
        ),
{
    if org.authority != admin {
        return Err(CvctError::Unauthorized);
    }
    Ok(Payroll { addr: payroll_addr, org: org.addr, interval, last_run: 0, active: true })
}

/// The first check adding a member fails, if any.
pub open spec fn add_member_checks(
    org: Organization,
    payroll: Payroll,
    admin: u64,
    recipient: u64,
    recipient_cvct_account: CvctAccount,
) -> Option<CvctError> {
    if org.authority != admin {
        Some(CvctError::Unauthorized)
    } else if payroll.org != org.addr {
        Some(CvctError::Unauthorized)
    } else if recipient_cvct_account.owner != recipient {
        Some(CvctError::Unauthorized)
    } else if recipient_cvct_account.cvct_mint != org.cvct_mint {
        Some(CvctError::InvalidVault)
    } else {
        None
    }
}

/// Add a member to a payroll, paid into their own account of the
/// organization's mint; initially active and never paid.
pub fn add_payroll_member(
    org: &Organization,
    payroll: &Payroll,
    member_addr: u64,
    admin: u64,
    recipient: u64,
    recipient_cvct_account: &CvctAccount,
    rate: u64,
) -> (r: Result<PayrollMember, CvctError>)
    ensures
        add_member_checks(*org, *payroll, admin, recipient, *recipient_cvct_account)
            matches Some(e) ==> r == Err::<PayrollMember, CvctError>(e),
        add_member_checks(*org, *payroll, admin, recipient, *recipient_cvct_account) is None ==> r
            == Ok::<PayrollMember, CvctError>(
            PayrollMember {
                addr: member_addr,
                payroll: payroll.addr,
                cvct_wallet: recipient_cvct_account.addr,
                rate,
                last_paid: 0,
                active: true,
            },
        ),
{
    if org.authority != admin {
        return Err(CvctError::Unauthorized);
    }
    if payroll.org != org.addr {
        return Err(CvctError::Unauthorized);
    }
    if recipient_cvct_account.owner != recipient {
        return Err(CvctError::Unauthorized);
    }
    if recipient_cvct_account.cvct_mint != org.cvct_mint {
        return Err(CvctError::InvalidVault);
    }
    Ok(PayrollMember {
        addr: member_addr,
        payroll: payroll.addr,
        cvct_wallet: recipient_cvct_account.addr,
        rate,
        last_paid: 0,
        active: true,
    })
}

/// Update a member's rate and active flag.
pub fn update_payroll_member(
    org: &Organization,
    payroll: &Payroll,
    member: &mut PayrollMember,
    admin: u64,
    new_rate: u64,
    active: bool,
) -> (r: Result<(), CvctError>)
    ensures
        org.authority != admin || payroll.org != org.addr || old(member).payroll != payroll.addr
            ==> r == Err::<(), CvctError>(CvctError::Unauthorized) && *final(member) == *old(
            member,
        ),
        org.authority == admin && payroll.org == org.addr && old(member).payroll == payroll.addr
            ==> r is Ok && *final(member) == (PayrollMember {
            rate: new_rate,
            active,
            ..*old(member)
        }),
{
    if org.authority != admin {
        return Err(CvctError::Unauthorized);
    }
    if payroll.org != org.addr {
        return Err(CvctError::Unauthorized);
    }
    if member.payroll != payroll.addr {
        return Err(CvctError::Unauthorized);
    }
    member.rate = new_rate;
    member.active = active;
    Ok(())
}

/// How many periods a member is owed at time `now`: one for a first payment,
/// otherwise the number of whole intervals elapsed since the last payment.
pub open spec fn periods_owed(now: i64, last_paid: i64, interval: i64) -> int {
    if last_paid == 0 {
        1
    } else if interval > 0 && now > last_paid {
        (now - last_paid) / (interval as int)
    } else if interval < 0 && now < last_paid {
        (last_paid - now) / (0 - interval)
    } else {
        0
    }
}

/// Whether all record-linkage and activity gates of a payroll run are open;
/// past them the run computes the elapsed time and owed periods.
pub open spec fn payroll_gates_open(
    org: Organization,
    payroll: Payroll,
    member: PayrollMember,
    org_treasury: CvctAccount,
    member_cvct_account: CvctAccount,
) -> bool {
    payroll.org == org.addr && member.payroll == payroll.addr && org_treasury.addr
        == org.cvct_treasury_vault && member_cvct_account.addr == member.cvct_wallet
        && payroll.active && member.active
}

/// The first check a payroll run fails, if any.
pub open spec fn run_payroll_checks(
    org: Organization,
    payroll: Payroll,
    member: PayrollMember,
    org_treasury: CvctAccount,
    member_cvct_account: CvctAccount,
    now: i64,
) -> Option<CvctError> {
    if payroll.org != org.addr {
        Some(CvctError::Unauthorized)
    } else if member.payroll != payroll.addr {
        Some(CvctError::Unauthorized)
    } else if org_treasury.addr != org.cvct_treasury_vault {
        Some(CvctError::InvalidVault)
    } else if member_cvct_account.addr != member.cvct_wallet {
        Some(CvctError::Unauthorized)
    } else if !payroll.active {
        Some(CvctError::PayrollNotActive)
    } else if !member.active {
        Some(CvctError::MemberNotActive)
    } else if periods_owed(now, member.last_paid, payroll.interval) <= 0 {
        Some(CvctError::PayrollNotDue)
    } else if org_treasury.balance.decrypted() < member.rate * periods_owed(
        now,
        member.last_paid,
        payroll.interval,
    ) {
        Some(CvctError::InsufficientFunds)
    } else {
        None
    }
}

/// Pay one member everything they are owed at time `now`: `rate` for a first
/// payment, otherwise `rate` times the whole intervals elapsed, moved from
/// the treasury to the member's account with the transfer discipline; the
/// member's `last_paid` becomes `now`. Nothing caps the number of owed
/// periods. All-or-nothing: on any failure nothing is changed.
pub fn run_payroll_for_member(
    org: &Organization,
    payroll: &Payroll,
    member: &mut PayrollMember,
    org_treasury: &mut CvctAccount,
    member_cvct_account: &mut CvctAccount,
    now: i64,
) -> (r: Result<(), CvctError>)
    requires
        payroll_gates_open(*org, *payroll, *old(member), *old(org_treasury), *old(
            member_cvct_account,
        )) ==> i64::MIN <= now - old(member).last_paid <= i64::MAX,
        payroll_gates_open(*org, *payroll, *old(member), *old(org_treasury), *old(
            member_cvct_account,
        )) && old(member).last_paid != 0 ==> payroll.interval != 0,
        payroll_gates_open(*org, *payroll, *old(member), *old(org_treasury), *old(
            member_cvct_account,
        )) && periods_owed(now, old(member).last_paid, payroll.interval) > 0 ==> old(member).rate
            * periods_owed(now, old(member).last_paid, payroll.interval) <= u64::MAX,
        run_payroll_checks(*org, *payroll, *old(member), *old(org_treasury), *old(
            member_cvct_account,
        ), now) is None ==> old(member_cvct_account).balance.decrypted() + old(member).rate
            * periods_owed(now, old(member).last_paid, payroll.interval) <= u128::MAX,
    ensures
        run_payroll_checks(*org, *payroll, *old(member), *old(org_treasury), *old(
            member_cvct_account,
        ), now) matches Some(e) ==> r == Err::<(), CvctError>(e),
        run_payroll_checks(*org, *payroll, *old(member), *old(org_treasury), *old(
            member_cvct_account,
        ), now) is None ==> r is Ok,
        r is Err ==> *final(member) == *old(member) && *final(org_treasury) == *old(org_treasury)
            && *final(member_cvct_account) == *old(member_cvct_account),
        r is Ok ==> final(org_treasury).balance.decrypted() == old(
            org_treasury,
        ).balance.decrypted() - old(member).rate * periods_owed(
            now,
            old(member).last_paid,
            payroll.interval,
        ),
        r is Ok ==> final(member_cvct_account).balance.decrypted() == old(
            member_cvct_account,
        ).balance.decrypted() + old(member).rate * periods_owed(
            now,
            old(member).last_paid,
            payroll.interval,
        ),
        r is Ok ==> *final(member) == (PayrollMember { last_paid: now, ..*old(member) }),
        final(org_treasury).balance.decrypted() + final(member_cvct_account).balance.decrypted()
            == old(org_treasury).balance.decrypted() + old(
            member_cvct_account,
        ).balance.decrypted(),
        same_account_identity(*final(org_treasury), *old(org_treasury)),
        same_account_identity(*final(member_cvct_account), *old(member_cvct_account)),
{
    if payroll.org != org.addr {
        return Err(CvctError::Unauthorized);
    }
    if member.payroll != payroll.addr {
        return Err(CvctError::Unauthorized);
    }
    if org_treasury.addr != org.cvct_treasury_vault {
        return Err(CvctError::InvalidVault);
    }
    if member_cvct_account.addr != member.cvct_wallet {
        return Err(CvctError::Unauthorized);
    }
    if !payroll.active {
        return Err(CvctError::PayrollNotActive);
    }
    if !member.active {
        return Err(CvctError::MemberNotActive);
    }

    // Periods owed since the last payment; one period for a first payment.
    let periods: u64 = if member.last_paid == 0 {
        1
    } else {
        let elapsed: i64 = now - member.last_paid;
        if payroll.interval > 0 && elapsed > 0 {
            (elapsed as u64) / (payroll.interval as u64)
        } else if payroll.interval < 0 && elapsed < 0 {
            let elapsed_mag: u64 = (-(elapsed as i128)) as u64;
            let interval_mag: u64 = (-(payroll.interval as i128)) as u64;
            elapsed_mag / interval_mag
        } else {
            0
        }
    };

    if periods == 0 {
        return Err(CvctError::PayrollNotDue);
    }

    let amount_owed: u64 = member.rate * periods;

    // Move the owed amount treasury -> member with the transfer discipline;
    // an uncovered amount hard-fails with `InsufficientFunds`.
    match analog::move_value(org_treasury, member_cvct_account, amount_owed) {
        Ok(()) => (),
        Err(e) => {
            return Err(e);
        },
    }

    member.last_paid = now;
    Ok(())
}

/// Stop a payroll from paying out.
pub fn pause_payroll(org: &Organization, payroll: &mut Payroll, admin: u64) -> (r: Result<
    (),
    CvctError,
>)
    ensures
        org.authority != admin || old(payroll).org != org.addr ==> r == Err::<(), CvctError>(
            CvctError::Unauthorized,
        ) && *final(payroll) == *old(payroll),
        org.authority == admin && old(payroll).org == org.addr ==> r is Ok && *final(payroll) == (
        Payroll { active: false, ..*old(payroll) }),
{
    if org.authority != admin {
        return Err(CvctError::Unauthorized);
    }
    if payroll.org != org.addr {
        return Err(CvctError::Unauthorized);
    }
    payroll.active = false;
    Ok(())
}

/// Let a paused payroll pay out again.
pub fn resume_payroll(org: &Organization, payroll: &mut Payroll, admin: u64) -> (r: Result<
    (),
    CvctError,
>)
    ensures
        org.authority != admin || old(payroll).org != org.addr ==> r == Err::<(), CvctError>(
            CvctError::Unauthorized,
        ) && *final(payroll) == *old(payroll),
        org.authority == admin && old(payroll).org == org.addr ==> r is Ok && *final(payroll) == (
        Payroll { active: true, ..*old(payroll) }),
{
    if org.authority != admin {
        return Err(CvctError::Unauthorized);
    }
    if payroll.org != org.addr {
        return Err(CvctError::Unauthorized);
    }
    payroll.active = true;
    Ok(())
}

/// Decide whether a payroll may close: only a paused payroll may, and on
/// success the host reclaims its record.
pub fn close_payroll(org: &Organization, payroll: Payroll, admin: u64) -> (r: Result<(), CvctError>)
    ensures
        org.authority != admin || payroll.org != org.addr ==> r == Err::<(), CvctError>(
            CvctError::Unauthorized,
        ),
        org.authority == admin && payroll.org == org.addr && payroll.active ==> r == Err::<
            (),
            CvctError,
        >(CvctError::MustPauseFirst),
        org.authority == admin && payroll.org == org.addr && !payroll.active ==> r is Ok,
{
    if org.authority != admin {
        return Err(CvctError::Unauthorized);
    }
    if payroll.org != org.addr {
        return Err(CvctError::Unauthorized);
    }
    if payroll.active {
        return Err(CvctError::MustPauseFirst);
    }
    Ok(())
}

} // verus!
