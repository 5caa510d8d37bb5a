//! Scan-side report handling.
//!
//! Each advertising report is examined for the Ruuvi manufacturer
//! identifier at one of its two known positions; the byte after the
//! identifier names the layout.  A report that parses is checked
//! against the per-source sequence table: a repeat of the remembered
//! pair is dropped as a duplicate, anything else is remembered and
//! queued for the sender together with its capture time.

use crate::dedup::DEDUP_CAPACITY;
use crate::dedup::SeqTable;
use crate::dedup::table_entries;
use crate::dedup::table_get;
use crate::dedup::table_insert;
use crate::dedup::table_new;
use crate::queue::HandoffQueue;
use crate::queue::QUEUE_CAPACITY;
use crate::schema::ParseError;
use crate::schema::RuuviRaw;
use crate::schema::e1_fields_ok;
use crate::schema::parse_ruuvi_raw;
use crate::schema::v2_fields_ok;
use vstd::prelude::*;

verus! {

/// A six-byte MAC address packed into one integer, high byte first.
pub open spec fn mac_key_spec(mac: [u8; 6]) -> u64 {
    (mac[0] * 0x100_0000_0000 + mac[1] * 0x1_0000_0000 + mac[2] * 0x100_0000 + mac[3] * 0x10000
        + mac[4] * 0x100 + mac[5]) as u64
}

/// Packs a MAC address into one integer, high byte first.
pub fn mac_key(mac: &[u8; 6]) -> (r: u64)
    ensures
        r == mac_key_spec(*mac),
{
    (mac[0] as u64) * 0x100_0000_0000 + (mac[1] as u64) * 0x1_0000_0000 + (mac[2] as u64)
        * 0x100_0000 + (mac[3] as u64) * 0x10000 + (mac[4] as u64) * 0x100 + (mac[5] as u64)
}

/// Whether a (MAC, sequence) pair differs from what the table
/// remembers for that MAC: such a pair is new and passes through.
pub open spec fn dedup_is_new(m: Map<u64, u32>, key: u64, seq: u32) -> bool {
    !(m.contains_key(key) && m[key] == seq)
}

/// The table after remembering a pair: an already-known MAC is
/// updated, a new MAC is added while there is room, and a new MAC
/// in a full table is let pass unremembered.
pub open spec fn dedup_store(m: Map<u64, u32>, key: u64, seq: u32) -> Map<u64, u32> {
    if m.contains_key(key) || m.dom().len() < DEDUP_CAPACITY {
        m.insert(key, seq)
    } else {
        m
    }
}

/// Once a pair has been remembered, the identical pair is no longer
/// new: the second of two identical arrivals is always dropped.
pub proof fn lemma_duplicate_never_forwarded(m: Map<u64, u32>, key: u64, seq: u32)
    requires
        m.contains_key(key) || m.dom().len() < DEDUP_CAPACITY,
    ensures
        !dedup_is_new(dedup_store(m, key, seq), key, seq),
{
}

/// Where the Ruuvi manufacturer identifier sits in a report, as the
/// layout tag and the offset where the payload starts: bytes 5-6
/// put the tag at byte 7, bytes 2-3 put it at byte 4.  Only reports
/// from a random address carry it.
pub open spec fn extract_spec(addr_kind_random: bool, data: Seq<u8>) -> Option<(u8, usize)> {
    if addr_kind_random && data.len() >= 8 && data[5] == 0x99 && data[6] == 0x04 {
        Some((data[7], 7usize))
    } else if addr_kind_random && data.len() >= 7 && data[2] == 0x99 && data[3] == 0x04 {
        Some((data[4], 4usize))
    } else {
        None
    }
}

/// Finds the layout tag and payload offset of a Ruuvi report, if
/// the report carries the manufacturer identifier.
pub fn extract_ruuvi_format(addr_kind_random: bool, data: &[u8]) -> (r: Option<(u8, usize)>)
    ensures
        r == extract_spec(addr_kind_random, data@),
{
    if addr_kind_random && data.len() >= 8 && data[5] == 0x99 && data[6] == 0x04 {
        Some((data[7], 7))
    } else if addr_kind_random && data.len() >= 7 && data[2] == 0x99 && data[3] == 0x04 {
        Some((data[4], 4))
    } else {
        None
    }
}

/// Whether a payload is long enough to parse under a layout tag.
pub open spec fn parse_ok(format: u8, payload: Seq<u8>) -> bool {
    (format == 0x05 && payload.len() >= 24) || (format == 0xE1 && payload.len() >= 40)
}

/// Whether a record carries exactly the fields of a payload under a
/// layout tag.
pub open spec fn record_matches(format: u8, payload: Seq<u8>, rec: RuuviRaw) -> bool {
    match rec {
        RuuviRaw::V2(v) => format == 0x05 && v2_fields_ok(payload, v),
        RuuviRaw::E1(v) => format == 0xE1 && e1_fields_ok(payload, v),
    }
}

/// What handling one report came to.
#[derive(Debug, Clone)]
pub enum ScanOutcome {
    /// The report carries no Ruuvi manufacturer identifier.
    NotRuuvi,
    /// The identifier is there but the payload does not parse.
    ParseFailed(ParseError),
    /// The record repeats the remembered pair and was dropped.
    Duplicate(RuuviRaw),
    /// The record is new and was queued for the sender.
    Forwarded(RuuviRaw),
}

/// The scanner's report handler: the sequence table it deduplicates
/// with.
pub struct Handler {
    sequence_numbers: SeqTable,
}

impl Handler {
    /// The (packed MAC, last sequence) pairs the handler remembers.
    pub closed spec fn entries(&self) -> Map<u64, u32> {
        table_entries(self.sequence_numbers)
    }

    /// A handler that remembers nothing yet.
    pub fn new() -> (r: Self)
        ensures
            r.entries() == (Map::<u64, u32>::empty()),
    {
        Handler { sequence_numbers: table_new() }
    }

    /// Whether a (MAC, sequence) pair differs from the remembered
    /// one.
    pub fn is_new_seq(&self, mac: [u8; 6], seq: u32) -> (r: bool)
        ensures
            r == dedup_is_new(self.entries(), mac_key_spec(mac), seq),
    {
        match table_get(&self.sequence_numbers, mac_key(&mac)) {
            Some(prev_seq) => prev_seq != seq,
            None => true,
        }
    }

    /// Remembers a (MAC, sequence) pair; a new MAC in a full table
    /// is let pass unremembered.
    pub fn upsert_seq(&mut self, mac: [u8; 6], seq: u32)
        ensures
            final(self).entries() == dedup_store(old(self).entries(), mac_key_spec(mac), seq),
    {
        let _ = table_insert(&mut self.sequence_numbers, mac_key(&mac), seq);
    }

    /// Handles one advertising report, captured at monotonic time
    /// `t_ms`: locates the payload, parses it, deduplicates, and
    /// queues a new record for the sender.
    pub fn process_report(
        &mut self,
        queue: &mut HandoffQueue,
        addr_kind_random: bool,
        data: &[u8],
        t_ms: u64,
    ) -> (r: ScanOutcome)
        requires
            old(queue).wf(),
        ensures
            final(queue).wf(),
            extract_spec(addr_kind_random, data@) is None ==> (r is NotRuuvi && final(self).entries() == old(self).entries() && final(queue)@ == old(queue)@),
            extract_spec(addr_kind_random, data@) matches Some(e) && !parse_ok(
                e.0,
                data@.skip(e.1 as int),
            ) ==> (r is ParseFailed && final(self).entries() == old(self).entries() && final(queue)@ == old(queue)@),
            r matches ScanOutcome::ParseFailed(pe) ==> ({
                &&& extract_spec(addr_kind_random, data@) matches Some(e) && !parse_ok(
                    e.0,
                    data@.skip(e.1 as int),
                ) && pe == if e.0 == 0x05 || e.0 == 0xE1 {
                    ParseError::TooShort
                } else {
                    ParseError::UnknownFormat(e.0)
                }
            }),
            extract_spec(addr_kind_random, data@) matches Some(e) && parse_ok(
                e.0,
                data@.skip(e.1 as int),
            ) ==> (r is Forwarded || r is Duplicate),
            r matches ScanOutcome::Forwarded(rec) ==> ({
                &&& extract_spec(addr_kind_random, data@) matches Some(e) && record_matches(
                    e.0,
                    data@.skip(e.1 as int),
                    rec,
                )
                &&& dedup_is_new(old(self).entries(), mac_key_spec(rec.mac_spec()), rec.seq_spec())
                &&& final(self).entries() == dedup_store(
                    old(self).entries(),
                    mac_key_spec(rec.mac_spec()),
                    rec.seq_spec(),
                )
                &&& final(queue)@ == if old(queue)@.len() < QUEUE_CAPACITY {
                    old(queue)@.push((rec, t_ms))
                } else {
                    seq![(rec, t_ms)]
                }
            }),
            r matches ScanOutcome::Duplicate(rec) ==> ({
                &&& extract_spec(addr_kind_random, data@) matches Some(e) && record_matches(
                    e.0,
                    data@.skip(e.1 as int),
                    rec,
                )
                &&& !dedup_is_new(old(self).entries(), mac_key_spec(rec.mac_spec()), rec.seq_spec())
                &&& final(self).entries() == dedup_store(
                    old(self).entries(),
                    mac_key_spec(rec.mac_spec()),
                    rec.seq_spec(),
                )
                &&& final(queue)@ == old(queue)@
            }),
    {
        let extracted = extract_ruuvi_format(addr_kind_random, data);
        let (data_format, index) = match extracted {
            Some(pair) => pair,
            None => {
                return ScanOutcome::NotRuuvi;
            },
        };
        let payload = vstd::slice::slice_subrange(data, index, data.len());
        let parsed = match parse_ruuvi_raw(data_format, payload) {
            Ok(parsed) => parsed,
            Err(e) => {
                return ScanOutcome::ParseFailed(e);
            },
        };
        let mac = parsed.mac();
        let measurement_seq = parsed.measurement_seq();
        let is_new = self.is_new_seq(mac, measurement_seq);
        self.upsert_seq(mac, measurement_seq);
        if !is_new {
            return ScanOutcome::Duplicate(parsed);
        }
        queue.push(parsed, t_ms);
        ScanOutcome::Forwarded(parsed)
    }
}

} // verus!
