//! The Intel-HEX firmware loader: the text is parsed by the `ihex` crate
//! behind one trusted wrapper, and the verified part writes every data
//! record's bytes into DRAM at the record's offset.

use vstd::prelude::*;

use crate::bus::{swrite, BusModel, DRAM_BASE, DRAM_SIZE};
use crate::interpreter::Interpreter;

verus! {

/// One Intel-HEX record, as this library carries it.
#[derive(Debug, PartialEq, Eq)]
pub enum HexRecord {
    Data { offset: u16, value: Vec<u8> },
    EndOfFile,
    ExtendedSegmentAddress(u16),
    StartSegmentAddress { cs: u16, ip: u16 },
    ExtendedLinearAddress(u16),
    StartLinearAddress(u32),
}

/// The specification-level shape of a record.
pub enum HexRecordModel {
    Data { offset: u16, value: Seq<u8> },
    EndOfFile,
    ExtendedSegmentAddress(u16),
    StartSegmentAddress { cs: u16, ip: u16 },
    ExtendedLinearAddress(u16),
    StartLinearAddress(u32),
}

/// The specification-level shape of one carried record.
pub open spec fn rec_model(h: HexRecord) -> HexRecordModel {
    match h {
        HexRecord::Data { offset, value } => HexRecordModel::Data { offset, value: value@ },
        HexRecord::EndOfFile => HexRecordModel::EndOfFile,
        HexRecord::ExtendedSegmentAddress(a) => HexRecordModel::ExtendedSegmentAddress(a),
        HexRecord::StartSegmentAddress { cs, ip } => HexRecordModel::StartSegmentAddress { cs, ip },
        HexRecord::ExtendedLinearAddress(a) => HexRecordModel::ExtendedLinearAddress(a),
        HexRecord::StartLinearAddress(a) => HexRecordModel::StartLinearAddress(a),
    }
}

/// The records that parsing a given Intel-HEX text yields: a function of
/// the text alone, named rather than spelled out.
pub uninterp spec fn hex_records_of(s: Seq<char>) -> Seq<HexRecordModel>;

/// Relies on ihex::Reader: parses Intel-HEX text line by line with the
/// reader's default options, which stop at the first malformed record and
/// at the end-of-file record. The records depend on the text alone.
#[verifier::external_body]
fn parse_ihex(text: &str) -> (r: Vec<HexRecord>)
    ensures
        r@.len() == hex_records_of(text@).len(),
        forall|i: int|
            0 <= i < r@.len() ==> #[trigger] rec_model(r@[i]) == hex_records_of(text@)[i],
{
    let mut out = Vec::new();
    for rec in ihex::Reader::new(text) {
        out.push(match rec {
            Ok(ihex::Record::Data { offset, value }) => HexRecord::Data { offset, value },
            Ok(ihex::Record::EndOfFile) => HexRecord::EndOfFile,
            Ok(ihex::Record::ExtendedSegmentAddress(a)) => HexRecord::ExtendedSegmentAddress(a),
            Ok(ihex::Record::StartSegmentAddress { cs, ip }) => HexRecord::StartSegmentAddress { cs, ip },
            Ok(ihex::Record::ExtendedLinearAddress(a)) => HexRecord::ExtendedLinearAddress(a),
            Ok(ihex::Record::StartLinearAddress(a)) => HexRecord::StartLinearAddress(a),
            Err(_) => continue,
        });
    }
    out
}

/// The bus after the bytes of one data record, from index `k` on, landed
/// at the DRAM base plus the record's offset. A byte outside DRAM is
/// dropped, as the write's fault is ignored.
pub open spec fn spec_load_bytes(b: BusModel, offset: int, value: Seq<u8>, k: int) -> BusModel
    decreases value.len() - k,
{
    if k < 0 || k >= value.len() {
        b
    } else {
        spec_load_bytes(
            swrite(b, DRAM_BASE as int + offset + k, value[k]).1,
            offset,
            value,
            k + 1,
        )
    }
}

/// The bus after one record: data records land in DRAM, every other
/// record kind changes nothing.
pub open spec fn spec_load_record(b: BusModel, rec: HexRecordModel) -> BusModel {
    match rec {
        HexRecordModel::Data { offset, value } => spec_load_bytes(b, offset as int, value, 0),
        _ => b,
    }
}

/// The bus after a whole record sequence, in order.
pub open spec fn spec_load_records(b: BusModel, rs: Seq<HexRecordModel>) -> BusModel
    decreases rs.len(),
{
    if rs.len() == 0 {
        b
    } else {
        spec_load_records(spec_load_record(b, rs[0]), rs.subrange(1, rs.len() as int))
    }
}

impl Interpreter {
    /// Loads Intel-HEX firmware text into DRAM: each data record's bytes
    /// land at the DRAM base plus the record's offset, later records
    /// overwriting earlier ones; other record kinds are ignored.
    pub fn load_hex_text(&mut self, text: &str)
        requires
            old(self).wf(),
        ensures
            final(self).wf(),
            final(self)@.bus == spec_load_records(old(self)@.bus, hex_records_of(text@)),
            final(self)@.core == old(self)@.core,
    {
        let records = parse_ihex(text);
        let ghost rs = hex_records_of(text@);
        proof {
            assert(rs.subrange(0, rs.len() as int) =~= rs);
        }

        let mut i: usize = 0;
        while i < records.len()
            invariant
                self.wf(),
                i <= records@.len(),
                records@.len() == rs.len(),
                forall|j: int|
                    0 <= j < rs.len() ==> #[trigger] rec_model(records@[j]) == rs[j],
                spec_load_records(old(self)@.bus, rs) == spec_load_records(
                    self@.bus,
                    rs.subrange(i as int, rs.len() as int),
                ),
                self@.core == old(self)@.core,
            decreases records@.len() - i,
        {
            let ghost b_rec = self@.bus;
            proof {
                assert(rs.subrange(i as int, rs.len() as int).subrange(
                    1,
                    rs.len() - i,
                ) =~= rs.subrange(i as int + 1, rs.len() as int));
                assert(rs.subrange(i as int, rs.len() as int)[0] == rs[i as int]);
            }
            match &records[i] {
                HexRecord::Data { offset, value } => {
                    let off = *offset as usize;
                    let mut k: usize = 0;
                    while k < value.len()
                        invariant
                            self.wf(),
                            k <= value@.len(),
                            off <= 0xFFFF,
                            spec_load_bytes(b_rec, off as int, value@, 0) == spec_load_bytes(
                                self@.bus,
                                off as int,
                                value@,
                                k as int,
                            ),
                            self@.core == old(self)@.core,
                        decreases value@.len() - k,
                    {
                        if k < DRAM_SIZE && off + k < DRAM_SIZE {
                            let _ = self.bus.write_byte(DRAM_BASE + off + k, value[k]);
                        } else {
                            proof {
                                // The byte would land past the end of DRAM,
                                // where the write faults and is dropped.
                                assert(swrite(
                                    self@.bus,
                                    DRAM_BASE as int + off as int + k as int,
                                    value@[k as int],
                                ).1 == self@.bus);
                            }
                        }
                        k += 1;
                    }
                },
                _ => {},
            }
            proof {
                assert(rec_model(records@[i as int]) == rs[i as int]);
                assert(self@.bus == spec_load_record(b_rec, rs[i as int]));
                assert(spec_load_records(b_rec, rs.subrange(i as int, rs.len() as int))
                    == spec_load_records(self@.bus, rs.subrange(i as int + 1, rs.len() as int)));
            }
            i += 1;
        }
        proof {
            assert(rs.subrange(rs.len() as int, rs.len() as int) =~= Seq::<
                HexRecordModel,
            >::empty());
        }
    }
}

} // verus!
