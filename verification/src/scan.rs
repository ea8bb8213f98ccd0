//! The scan controller: what a scan is configured with, what becomes of the
//! reports that arrive while it runs, and how it ends.
//!
//! Every report of a batch is classified. The first keyboard found is offered
//! to the handoff slot; a keyboard found while another still waits there is
//! dropped. A scan ends with the device that waits in the slot, or with a
//! timeout when the reports that arrived in time held no keyboard, or with an
//! error when the scan session could not be opened at all.

use crate::address::AddrKind;
use crate::address::Address;
use crate::advert::classify;
use crate::advert::decoded;
use crate::advert::is_keyboard;
use crate::advert::AdvEventKind;
use crate::advert::AdvertisementReport;
use crate::advert::AdvertisementReportView;
use crate::config::SCAN_INTERVAL_SECS;
use crate::config::SCAN_WINDOW_SECS;
use crate::handoff::DiscoveredDevice;
use crate::handoff::Offer;
use crate::handoff::Slot;
use bt_hci::param::LeAdvEventKind;
use bt_hci::param::LeAdvReport;
use bt_hci::param::LeAdvReportsIter;
use bt_hci::FromHciBytesError;
use vstd::prelude::*;

verus! {

/// How the radio scans.
#[derive(Clone, Copy, Debug, PartialEq, Eq, Structural)]
pub struct ScanConfig {
    /// Whether scan requests are sent to advertisers.
    pub active: bool,
    pub interval_secs: u64,
    pub window_secs: u64,
}

/// The configuration that every scan runs with: active scanning, for the
/// scan window out of every scan interval.
pub open spec fn scan_defaults() -> ScanConfig {
    ScanConfig { active: true, interval_secs: SCAN_INTERVAL_SECS, window_secs: SCAN_WINDOW_SECS }
}

/// The configuration that every scan runs with.
pub fn scan_config() -> (config: ScanConfig)
    ensures
        config == scan_defaults(),
{
    ScanConfig { active: true, interval_secs: SCAN_INTERVAL_SECS, window_secs: SCAN_WINDOW_SECS }
}

/// `bt_hci::param::LeAdvReportsIter`, the batch of reports as the host stack
/// hands it over. What it holds is known by the name `batch_reports` alone.
#[verifier::external_type_specification]
#[verifier::external_body]
pub struct ExLeAdvReportsIter<'a>(LeAdvReportsIter<'a>);

/// `bt_hci::param::LeAdvReport`, one report as the batch yields it.
#[verifier::external_type_specification]
#[verifier::external_body]
pub struct ExLeAdvReport<'a>(LeAdvReport<'a>);

/// `bt_hci::FromHciBytesError`, what the batch yields for a report that
/// cannot be read.
#[verifier::external_type_specification]
#[verifier::external_body]
pub struct ExFromHciBytesError(FromHciBytesError);

/// The reports of a batch as mathematical values, in the order of the batch.
/// `None` stands for a report that could not be read.
pub open spec fn report_views(reports: Seq<Option<AdvertisementReport>>) -> Seq<
    Option<AdvertisementReportView>,
> {
    Seq::new(
        reports.len(),
        |i: int|
            match reports[i] {
                Some(report) => Some(report@),
                None => None,
            },
    )
}

/// What a batch yields when it is iterated to its end, report by report.
pub uninterp spec fn batch_reports(batch: LeAdvReportsIter<'_>) -> Seq<
    Option<AdvertisementReportView>,
>;

/// `LeAdvReportsIter`, run to its end: the reports of a batch in order, each
/// copied out of the batch, with `None` where a report could not be read.
#[verifier::external_body]
fn collect_reports(reports: LeAdvReportsIter<'_>) -> (out: Vec<Option<AdvertisementReport>>)
    ensures
        report_views(out@) == batch_reports(reports),
{
    reports.map(|r| r.ok().map(|r| AdvertisementReport {
        source_address: Address { kind: AddrKind { code: r.addr_kind.into_inner() }, bytes: r.addr.into_inner() },
        event_kind: match r.event_kind {
            LeAdvEventKind::AdvInd => AdvEventKind::AdvInd,
            LeAdvEventKind::AdvDirectInd => AdvEventKind::AdvDirectInd,
            LeAdvEventKind::AdvScanInd => AdvEventKind::AdvScanInd,
            LeAdvEventKind::AdvNonconnInd => AdvEventKind::AdvNonconnInd,
            LeAdvEventKind::ScanRsp => AdvEventKind::ScanRsp,
        },
        raw_payload: r.data.to_vec(),
    })).collect()
}

/// Whether an entry of a batch is a report of a HID keyboard. An entry that
/// could not be read never is.
pub open spec fn reports_keyboard(entry: Option<AdvertisementReport>) -> bool {
    entry matches Some(report) && is_keyboard(decoded(report.raw_payload@))
}

/// No entry of the batch is a report of a keyboard.
pub open spec fn no_keyboard(reports: Seq<Option<AdvertisementReport>>) -> bool {
    forall|i: int| 0 <= i < reports.len() ==> !reports_keyboard(#[trigger] reports[i])
}

/// The entry at `i` is the first report of a keyboard in the batch.
pub open spec fn first_keyboard_at(reports: Seq<Option<AdvertisementReport>>, i: int) -> bool {
    &&& 0 <= i < reports.len()
    &&& reports_keyboard(reports[i])
    &&& no_keyboard(reports.take(i))
}

/// How many entries of the batch are reports of a keyboard.
pub open spec fn keyboard_count(reports: Seq<Option<AdvertisementReport>>) -> nat
    decreases reports.len(),
{
    if reports.len() == 0 {
        0
    } else {
        keyboard_count(reports.drop_last()) + if reports_keyboard(reports.last()) {
            1nat
        } else {
            0nat
        }
    }
}

/// The device that a report announces.
pub open spec fn device_of(entry: Option<AdvertisementReport>) -> DiscoveredDevice {
    DiscoveredDevice { address: entry->0.source_address }
}

/// What waits in the slot once a batch has been taken in: the device that
/// waited before, or else the sender of the first keyboard report of the batch.
pub open spec fn slot_after(
    before: Option<DiscoveredDevice>,
    reports: Seq<Option<AdvertisementReport>>,
) -> Option<DiscoveredDevice> {
    if before.is_some() || no_keyboard(reports) {
        before
    } else {
        Some(device_of(reports[choose|i: int| first_keyboard_at(reports, i)]))
    }
}

/// What became of one batch of reports.
#[derive(Clone, Copy, Debug, PartialEq, Eq, Structural)]
pub struct BatchOutcome {
    /// Reports of a keyboard in the batch.
    pub keyboards: usize,
    /// Keyboards that were dropped because a device already waited.
    pub dropped: usize,
}

/// A batch of reports as it was read, and what became of it.
#[derive(Clone, Debug, PartialEq, Eq)]
pub struct BatchRecord {
    /// The reports of the batch in order, `None` for each that could not be
    /// read.
    pub reports: Vec<Option<AdvertisementReport>>,
    pub outcome: BatchOutcome,
}

/// How a scan ended.
#[derive(Clone, Copy, Debug, PartialEq, Eq)]
pub enum ScanOutcome {
    /// A keyboard was found at this address.
    Found(Address),
    /// The wait ran out and no keyboard had been reported.
    Timeout,
    /// The scan session could not be opened.
    ScanError,
}

/// How a scan ended, and how many batches of reports it took in.
#[derive(Clone, Copy, Debug, PartialEq, Eq)]
pub struct ScanResult {
    pub outcome: ScanOutcome,
    pub batches_consumed: usize,
}

/// No batch holds a report of a keyboard.
pub open spec fn quiet(batches: Seq<Vec<Option<AdvertisementReport>>>) -> bool {
    forall|b: int| 0 <= b < batches.len() ==> no_keyboard((#[trigger] batches[b])@)
}

/// The first report of a keyboard in all the batches is entry `i` of batch `b`.
pub open spec fn first_sighting(
    batches: Seq<Vec<Option<AdvertisementReport>>>,
    b: int,
    i: int,
) -> bool {
    &&& 0 <= b < batches.len()
    &&& quiet(batches.take(b))
    &&& first_keyboard_at(batches[b]@, i)
}

/// Receives the advertisement reports of a scan and keeps the handoff slot.
pub struct BleHandler {
    slot: Slot,
}

impl BleHandler {
    /// The device that waits to be picked up, if one does.
    pub closed spec fn view(&self) -> Option<DiscoveredDevice> {
        self.slot@
    }

    /// A handler with nothing in its slot.
    pub fn new() -> (handler: BleHandler)
        ensures
            handler@.is_none(),
    {
        BleHandler { slot: Slot::new() }
    }

    /// Classifies one report and offers its sender to the slot if it is a
    /// keyboard. Returns `None` for a report that is none.
    pub fn handle_report(&mut self, report: &AdvertisementReport) -> (offer: Option<Offer>)
        ensures
            !reports_keyboard(Some(*report)) ==> offer.is_none() && final(self)@ == old(self)@,
            reports_keyboard(Some(*report)) && old(self)@.is_none() ==> offer == Some(
                Offer::Accepted,
            ) && final(self)@ == Some(device_of(Some(*report))),
            reports_keyboard(Some(*report)) && old(self)@.is_some() ==> offer == Some(
                Offer::ChannelFull,
            ) && final(self)@ == old(self)@,
    {
        if classify(report.raw_payload.as_slice()) {
            Some(self.slot.offer(DiscoveredDevice { address: report.source_address }))
        } else {
            None
        }
    }

    /// Takes in one batch of reports, oldest first.
    ///
    /// A device that already waits stays where it is. Otherwise the sender of
    /// the first keyboard report of the batch waits in the slot afterwards, and
    /// the slot stays empty when the batch holds no such report. Every further
    /// keyboard of the batch is dropped.
    pub fn handle_reports(&mut self, reports: &Vec<Option<AdvertisementReport>>) -> (outcome:
        BatchOutcome)
        ensures
            final(self)@ == slot_after(old(self)@, reports@),
            forall|i: int|
                old(self)@.is_none() && first_keyboard_at(reports@, i) ==> final(self)@ == Some(
                    device_of(reports@[i]),
                ),
            outcome.keyboards == keyboard_count(reports@),
            outcome.dropped == if old(self)@.is_none() && outcome.keyboards > 0 {
                outcome.keyboards - 1
            } else {
                outcome.keyboards as int
            },
    {
        let ghost before = self@;
        let mut keyboards: usize = 0;
        let mut dropped: usize = 0;
        let mut k: usize = 0;
        while k < reports.len()
            invariant
                k <= reports.len(),
                self@ == slot_after(before, reports@.take(k as int)),
                keyboards == keyboard_count(reports@.take(k as int)),
                keyboards <= k,
                dropped == if before.is_none() && keyboards > 0 {
                    keyboards - 1
                } else {
                    keyboards as int
                },
            decreases reports.len() - k,
        {
            proof {
                let seen = reports@.take(k as int);
                let grown = reports@.take(k as int + 1);
                assert(grown =~= seen.push(reports@[k as int]));
                assert(grown.drop_last() =~= seen);
                lemma_keyboards_counted(seen);
                lemma_slot_after_grows(before, seen, reports@[k as int]);
            }
            match &reports[k] {
                Some(report) => match self.handle_report(report) {
                    Some(Offer::Accepted) => {
                        keyboards += 1;
                    },
                    Some(Offer::ChannelFull) => {
                        keyboards += 1;
                        dropped += 1;
                    },
                    None => {},
                },
                None => {},
            }
            k += 1;
        }
        proof {
            assert(reports@.take(k as int) =~= reports@);
            lemma_first_keyboard_is_unique(reports@);
            lemma_first_keyboard_exists(reports@);
        }
        BatchOutcome { keyboards, dropped }
    }

    /// Takes in the batch of reports that the host stack hands over, and
    /// returns the reports along with what became of them.
    ///
    /// The reports are read out of the batch and then taken in as
    /// `handle_reports` takes them in.
    pub fn on_adv_reports(&mut self, it: LeAdvReportsIter<'_>) -> (record: BatchRecord)
        ensures
            report_views(record.reports@) == batch_reports(it),
            final(self)@ == slot_after(old(self)@, record.reports@),
            record.outcome.keyboards == keyboard_count(record.reports@),
            record.outcome.dropped == if old(self)@.is_none() && record.outcome.keyboards > 0 {
                record.outcome.keyboards - 1
            } else {
                record.outcome.keyboards as int
            },
    {
        let reports = collect_reports(it);
        let outcome = self.handle_reports(&reports);
        BatchRecord { reports, outcome }
    }

    /// Runs one scan over the batches of reports that arrive before the wait
    /// runs out, oldest first.
    ///
    /// Without a scan session nothing is looked at. With one, a device that
    /// already waits is picked up at once. Otherwise the batches are taken in
    /// one by one until one of them holds a keyboard, whose first such report
    /// names the device found; batches after that one are not looked at. When
    /// no batch holds a keyboard the scan times out. The slot is empty after
    /// every scan that had a session.
    pub fn find_device(
        &mut self,
        session_opened: bool,
        batches: &Vec<Vec<Option<AdvertisementReport>>>,
    ) -> (result: ScanResult)
        ensures
            !session_opened ==> result.outcome == ScanOutcome::ScanError && result.batches_consumed
                == 0 && final(self)@ == old(self)@,
            session_opened ==> final(self)@.is_none(),
            session_opened && old(self)@.is_some() ==> result.outcome == ScanOutcome::Found(
                old(self)@->0.address,
            ) && result.batches_consumed == 0,
            session_opened && old(self)@.is_none() && quiet(batches@) ==> result.outcome
                == ScanOutcome::Timeout && result.batches_consumed == batches.len(),
            forall|b: int, i: int|
                session_opened && old(self)@.is_none() && first_sighting(batches@, b, i)
                    ==> result.outcome == ScanOutcome::Found(
                    batches@[b]@[i]->0.source_address,
                ) && result.batches_consumed == b + 1,
    {
        if !session_opened {
            return ScanResult { outcome: ScanOutcome::ScanError, batches_consumed: 0 };
        }
        match self.take_device() {
            Some(device) => {
                return ScanResult {
                    outcome: ScanOutcome::Found(device.address),
                    batches_consumed: 0,
                };
            },
            None => {},
        }
        let mut b: usize = 0;
        while b < batches.len()
            invariant
                b <= batches.len(),
                session_opened,
                old(self)@.is_none(),
                self@.is_none(),
                quiet(batches@.take(b as int)),
            decreases batches.len() - b,
        {
            proof {
                lemma_first_keyboard_exists(batches@[b as int]@);
                lemma_first_keyboard_is_unique(batches@[b as int]@);
                lemma_first_sighting_is_unique(batches@);
                assert(batches@.take(b as int + 1) =~= batches@.take(b as int).push(
                    batches@[b as int],
                ));
            }
            self.handle_reports(&batches[b]);
            match self.take_device() {
                Some(device) => {
                    proof {
                        let i = choose|i: int| first_keyboard_at(batches@[b as int]@, i);
                        assert(first_sighting(batches@, b as int, i));
                    }
                    return ScanResult {
                        outcome: ScanOutcome::Found(device.address),
                        batches_consumed: b + 1,
                    };
                },
                None => {},
            }
            b += 1;
        }
        proof {
            assert(batches@.take(b as int) =~= batches@);
            lemma_quiet_has_no_sighting(batches@);
        }
        ScanResult { outcome: ScanOutcome::Timeout, batches_consumed: b }
    }

    /// Picks up the device that waits, and leaves the slot empty.
    pub fn take_device(&mut self) -> (device: Option<DiscoveredDevice>)
        ensures
            device == old(self)@,
            final(self)@.is_none(),
    {
        self.slot.take()
    }
}

/// A batch without a keyboard counts none, and the other way round.
pub proof fn lemma_keyboards_counted(reports: Seq<Option<AdvertisementReport>>)
    ensures
        no_keyboard(reports) <==> keyboard_count(reports) == 0,
    decreases reports.len(),
{
    if reports.len() > 0 {
        let front = reports.drop_last();
        lemma_keyboards_counted(front);
        if no_keyboard(reports) {
            assert forall|i: int| 0 <= i < front.len() implies !reports_keyboard(
                #[trigger] front[i],
            ) by {
                assert(front[i] == reports[i]);
            }
            assert(!reports_keyboard(reports[reports.len() - 1]));
        }
        if keyboard_count(reports) == 0 {
            assert forall|i: int| 0 <= i < reports.len() implies !reports_keyboard(
                #[trigger] reports[i],
            ) by {
                if i < front.len() {
                    assert(front[i] == reports[i]);
                }
            }
        }
    }
}

proof fn lemma_no_keyboard_grows(
    reports: Seq<Option<AdvertisementReport>>,
    next: Option<AdvertisementReport>,
)
    ensures
        no_keyboard(reports.push(next)) == (no_keyboard(reports) && !reports_keyboard(next)),
{
    let grown = reports.push(next);
    if no_keyboard(grown) {
        assert forall|i: int| 0 <= i < reports.len() implies !reports_keyboard(
            #[trigger] reports[i],
        ) by {
            assert(grown[i] == reports[i]);
        }
        assert(grown[reports.len() as int] == next);
    }
    if no_keyboard(reports) && !reports_keyboard(next) {
        assert forall|i: int| 0 <= i < grown.len() implies !reports_keyboard(
            #[trigger] grown[i],
        ) by {
            if i < reports.len() {
                assert(grown[i] == reports[i]);
            }
        }
    }
}

/// One more report changes what waits in the slot only when the slot would
/// be empty without it and the report is a keyboard's.
pub proof fn lemma_slot_after_grows(
    before: Option<DiscoveredDevice>,
    reports: Seq<Option<AdvertisementReport>>,
    next: Option<AdvertisementReport>,
)
    ensures
        slot_after(before, reports.push(next)) == if slot_after(before, reports).is_some() {
            slot_after(before, reports)
        } else if reports_keyboard(next) {
            Some(device_of(next))
        } else {
            None
        },
{
    let grown = reports.push(next);
    lemma_no_keyboard_grows(reports, next);
    lemma_first_keyboard_is_unique(reports);
    lemma_first_keyboard_is_unique(grown);
    lemma_first_keyboard_exists(reports);
    lemma_first_keyboard_exists(grown);
    if before.is_none() {
        if !no_keyboard(reports) {
            let i = choose|i: int| first_keyboard_at(reports, i);
            assert(grown.take(i) =~= reports.take(i));
            assert(grown[i] == reports[i]);
            assert(first_keyboard_at(grown, i));
        } else if reports_keyboard(next) {
            let last = reports.len() as int;
            assert(grown.take(last) =~= reports);
            assert(grown[last] == next);
            assert(first_keyboard_at(grown, last));
        }
    }
}

/// A batch has one first keyboard at most.
pub proof fn lemma_first_keyboard_is_unique(reports: Seq<Option<AdvertisementReport>>)
    ensures
        forall|i: int, j: int|
            first_keyboard_at(reports, i) && first_keyboard_at(reports, j) ==> i == j,
{
    assert forall|i: int, j: int|
        first_keyboard_at(reports, i) && first_keyboard_at(reports, j) implies i == j by {
        if i < j {
            assert(reports.take(j)[i] == reports[i]);
        } else if j < i {
            assert(reports.take(i)[j] == reports[j]);
        }
    }
}

/// A batch that holds a keyboard has a first one.
pub proof fn lemma_first_keyboard_exists(reports: Seq<Option<AdvertisementReport>>)
    ensures
        !no_keyboard(reports) ==> exists|i: int| first_keyboard_at(reports, i),
    decreases reports.len(),
{
    if !no_keyboard(reports) {
        let front = reports.drop_last();
        let last = reports.len() - 1;
        assert(reports =~= front.push(reports[last]));
        lemma_no_keyboard_grows(front, reports[last]);
        if no_keyboard(front) {
            assert(reports.take(last) =~= front);
            assert(first_keyboard_at(reports, last));
        } else {
            lemma_first_keyboard_exists(front);
            let i = choose|i: int| first_keyboard_at(front, i);
            assert(front.take(i) =~= reports.take(i));
            assert(front[i] == reports[i]);
            assert(first_keyboard_at(reports, i));
        }
    }
}

/// The first report of a keyboard in a run of batches stands in one place.
pub proof fn lemma_first_sighting_is_unique(batches: Seq<Vec<Option<AdvertisementReport>>>)
    ensures
        forall|b: int, i: int, c: int, j: int|
            first_sighting(batches, b, i) && first_sighting(batches, c, j) ==> b == c && i == j,
{
    assert forall|b: int, i: int, c: int, j: int|
        first_sighting(batches, b, i) && first_sighting(batches, c, j) implies b == c && i
        == j by {
        if b < c {
            assert(batches.take(c)[b] == batches[b]);
        } else if c < b {
            assert(batches.take(b)[c] == batches[c]);
        } else {
            lemma_first_keyboard_is_unique(batches[b]@);
        }
    }
}

/// Batches without a keyboard hold no first report of one.
pub proof fn lemma_quiet_has_no_sighting(batches: Seq<Vec<Option<AdvertisementReport>>>)
    requires
        quiet(batches),
    ensures
        forall|b: int, i: int| !first_sighting(batches, b, i),
{
    assert forall|b: int, i: int| !first_sighting(batches, b, i) by {
        if first_sighting(batches, b, i) {
            assert(no_keyboard(batches[b]@));
            assert(reports_keyboard(batches[b]@[i]));
        }
    }
}

/// A device that waits in the slot is not displaced: whatever reports arrive
/// while it waits, it is still the one that waits afterwards.
pub proof fn law_waiting_device_is_kept(
    waiting: DiscoveredDevice,
    reports: Seq<Option<AdvertisementReport>>,
)
    ensures
        slot_after(Some(waiting), reports) == Some(waiting),
{
}

/// Of all the keyboards reported while the slot is not picked up, the first
/// one is handed over and no other: batches that arrive after the one that
/// filled the slot change nothing.
pub proof fn law_first_keyboard_is_handed_over(
    first: Seq<Option<AdvertisementReport>>,
    later: Seq<Option<AdvertisementReport>>,
    i: int,
)
    requires
        first_keyboard_at(first, i),
    ensures
        slot_after(None, first) == Some(device_of(first[i])),
        slot_after(slot_after(None, first), later) == Some(device_of(first[i])),
{
    lemma_first_keyboard_is_unique(first);
}

/// Reports that are no keyboard's leave the slot as it is.
pub proof fn law_other_reports_leave_the_slot(
    before: Option<DiscoveredDevice>,
    reports: Seq<Option<AdvertisementReport>>,
)
    requires
        no_keyboard(reports),
    ensures
        slot_after(before, reports) == before,
{
}

} // verus!
