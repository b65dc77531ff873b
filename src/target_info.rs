//! The payload of a discovered target, one record type per technology.
//!
//! Each payload is stored by the native layer in one shared union of
//! `INFO_LEN` bytes; `layout` gives the bytes a payload occupies there, and
//! `decoded_from` says which payload a union's bytes hold.

use crate::layout::{
    from_le32, from_le64, le32, le64, lemma_le32, lemma_le64, read_array, read_u32, read_u64, splice,
    write_at, write_byte, write_u32, write_u64, zero_buffer, zeros,
};
use crate::modulation::DepMode;
use vstd::prelude::*;

verus! {

/// Size of the native union that holds a target's payload.
pub const INFO_LEN: usize = 296;

/// An ISO/IEC 14443 type A target.
#[derive(Debug, Clone, Copy, PartialEq, Eq)]
pub struct Iso14443aInfo {
    pub atqa: [u8; 2],
    pub sak: u8,
    pub uid_len: u64,
    pub uid: [u8; 10],
    pub ats_len: u64,
    pub ats: [u8; 254],
}

impl Iso14443aInfo {
    /// The union bytes that hold this payload; bytes between fields are zero.
    pub open spec fn layout(self) -> Seq<u8> {
        let b = zeros(INFO_LEN as nat);
        let b = splice(b, 0, self.atqa@);
        let b = splice(b, 2, seq![self.sak]);
        let b = splice(b, 8, le64(self.uid_len));
        let b = splice(b, 16, self.uid@);
        let b = splice(b, 32, le64(self.ats_len));
        splice(b, 40, self.ats@)
    }

    /// Whether each field is what union bytes `b` hold at its offset.
    pub open spec fn decoded_from(self, b: Seq<u8>) -> bool {
        &&& self.atqa@ == b.subrange(0, 2)
        &&& self.sak == b[2]
        &&& self.uid_len == from_le64(b.subrange(8, 16))
        &&& self.uid@ == b.subrange(16, 26)
        &&& self.ats_len == from_le64(b.subrange(32, 40))
        &&& self.ats@ == b.subrange(40, 294)
    }

    /// The union bytes that hold this payload.
    pub fn write(&self) -> (r: Vec<u8>)
        ensures
            r@ == self.layout(),
    {
        let mut b = zero_buffer(INFO_LEN);
        write_at(&mut b, 0, self.atqa.as_slice());
        write_byte(&mut b, 2, self.sak);
        write_u64(&mut b, 8, self.uid_len);
        write_at(&mut b, 16, self.uid.as_slice());
        write_u64(&mut b, 32, self.ats_len);
        write_at(&mut b, 40, self.ats.as_slice());
        b
    }

    /// The payload that union bytes hold.
    pub fn read(b: &[u8]) -> (r: Self)
        requires
            b@.len() == INFO_LEN,
        ensures
            r.decoded_from(b@),
    {
        Iso14443aInfo {
            atqa: read_array(b, 0),
            sak: b[2],
            uid_len: read_u64(b, 8),
            uid: read_array(b, 16),
            ats_len: read_u64(b, 32),
            ats: read_array(b, 40),
        }
    }

    /// Reading back the bytes a payload was written to gives the payload.
    pub proof fn lemma_round_trip(self, r: Self)
        requires
            r.decoded_from(self.layout()),
        ensures
            r == self,
    {
        let b = self.layout();
        lemma_le64(self.uid_len);
        lemma_le64(self.ats_len);
        assert(b.subrange(0, 2) =~= self.atqa@);
        assert(b.subrange(8, 16) =~= le64(self.uid_len));
        assert(b.subrange(16, 26) =~= self.uid@);
        assert(b.subrange(32, 40) =~= le64(self.ats_len));
        assert(b.subrange(40, 294) =~= self.ats@);
        assert(r.atqa =~= self.atqa);
        assert(r.uid =~= self.uid);
        assert(r.ats =~= self.ats);
    }
}

/// A FeliCa target.
#[derive(Debug, Clone, Copy, PartialEq, Eq)]
pub struct FelicaInfo {
    pub len: u64,
    pub res_code: u8,
    pub id: [u8; 8],
    pub pad: [u8; 8],
    pub sys_code: [u8; 2],
}

impl FelicaInfo {
    /// The union bytes that hold this payload; bytes between fields are zero.
    pub open spec fn layout(self) -> Seq<u8> {
        let b = zeros(INFO_LEN as nat);
        let b = splice(b, 0, le64(self.len));
        let b = splice(b, 8, seq![self.res_code]);
        let b = splice(b, 9, self.id@);
        let b = splice(b, 17, self.pad@);
        splice(b, 25, self.sys_code@)
    }

    /// Whether each field is what union bytes `b` hold at its offset.
    pub open spec fn decoded_from(self, b: Seq<u8>) -> bool {
        &&& self.len == from_le64(b.subrange(0, 8))
        &&& self.res_code == b[8]
        &&& self.id@ == b.subrange(9, 17)
        &&& self.pad@ == b.subrange(17, 25)
        &&& self.sys_code@ == b.subrange(25, 27)
    }

    /// The union bytes that hold this payload.
    pub fn write(&self) -> (r: Vec<u8>)
        ensures
            r@ == self.layout(),
    {
        let mut b = zero_buffer(INFO_LEN);
        write_u64(&mut b, 0, self.len);
        write_byte(&mut b, 8, self.res_code);
        write_at(&mut b, 9, self.id.as_slice());
        write_at(&mut b, 17, self.pad.as_slice());
        write_at(&mut b, 25, self.sys_code.as_slice());
        b
    }

    /// The payload that union bytes hold.
    pub fn read(b: &[u8]) -> (r: Self)
        requires
            b@.len() == INFO_LEN,
        ensures
            r.decoded_from(b@),
    {
        FelicaInfo {
            len: read_u64(b, 0),
            res_code: b[8],
            id: read_array(b, 9),
            pad: read_array(b, 17),
            sys_code: read_array(b, 25),
        }
    }

    /// Reading back the bytes a payload was written to gives the payload.
    pub proof fn lemma_round_trip(self, r: Self)
        requires
            r.decoded_from(self.layout()),
        ensures
            r == self,
    {
        let b = self.layout();
        lemma_le64(self.len);
        assert(b.subrange(0, 8) =~= le64(self.len));
        assert(b.subrange(9, 17) =~= self.id@);
        assert(b.subrange(17, 25) =~= self.pad@);
        assert(b.subrange(25, 27) =~= self.sys_code@);
        assert(r.id =~= self.id);
        assert(r.pad =~= self.pad);
        assert(r.sys_code =~= self.sys_code);
    }
}

/// An ISO/IEC 14443 type B target.
#[derive(Debug, Clone, Copy, PartialEq, Eq)]
pub struct Iso14443bInfo {
    pub pupi: [u8; 4],
    pub application_data: [u8; 4],
    pub protocol_info: [u8; 3],
    pub card_identifier: u8,
}

impl Iso14443bInfo {
    /// The union bytes that hold this payload; bytes between fields are zero.
    pub open spec fn layout(self) -> Seq<u8> {
        let b = zeros(INFO_LEN as nat);
        let b = splice(b, 0, self.pupi@);
        let b = splice(b, 4, self.application_data@);
        let b = splice(b, 8, self.protocol_info@);
        splice(b, 11, seq![self.card_identifier])
    }

    /// Whether each field is what union bytes `b` hold at its offset.
    pub open spec fn decoded_from(self, b: Seq<u8>) -> bool {
        &&& self.pupi@ == b.subrange(0, 4)
        &&& self.application_data@ == b.subrange(4, 8)
        &&& self.protocol_info@ == b.subrange(8, 11)
        &&& self.card_identifier == b[11]
    }

    /// The union bytes that hold this payload.
    pub fn write(&self) -> (r: Vec<u8>)
        ensures
            r@ == self.layout(),
    {
        let mut b = zero_buffer(INFO_LEN);
        write_at(&mut b, 0, self.pupi.as_slice());
        write_at(&mut b, 4, self.application_data.as_slice());
        write_at(&mut b, 8, self.protocol_info.as_slice());
        write_byte(&mut b, 11, self.card_identifier);
        b
    }

    /// The payload that union bytes hold.
    pub fn read(b: &[u8]) -> (r: Self)
        requires
            b@.len() == INFO_LEN,
        ensures
            r.decoded_from(b@),
    {
        Iso14443bInfo {
            pupi: read_array(b, 0),
            application_data: read_array(b, 4),
            protocol_info: read_array(b, 8),
            card_identifier: b[11],
        }
    }

    /// Reading back the bytes a payload was written to gives the payload.
    pub proof fn lemma_round_trip(self, r: Self)
        requires
            r.decoded_from(self.layout()),
        ensures
            r == self,
    {
        let b = self.layout();
        assert(b.subrange(0, 4) =~= self.pupi@);
        assert(b.subrange(4, 8) =~= self.application_data@);
        assert(b.subrange(8, 11) =~= self.protocol_info@);
        assert(r.pupi =~= self.pupi);
        assert(r.application_data =~= self.application_data);
        assert(r.protocol_info =~= self.protocol_info);
    }
}

/// An ISO/IEC 14443 type B' target.
#[derive(Debug, Clone, Copy, PartialEq, Eq)]
pub struct Iso14443biInfo {
    pub div: [u8; 4],
    pub ver_log: u8,
    pub config: u8,
    pub atr_len: u64,
    pub atr: [u8; 33],
}

impl Iso14443biInfo {
    /// The union bytes that hold this payload; bytes between fields are zero.
    pub open spec fn layout(self) -> Seq<u8> {
        let b = zeros(INFO_LEN as nat);
        let b = splice(b, 0, self.div@);
        let b = splice(b, 4, seq![self.ver_log]);
        let b = splice(b, 5, seq![self.config]);
        let b = splice(b, 8, le64(self.atr_len));
        splice(b, 16, self.atr@)
    }

    /// Whether each field is what union bytes `b` hold at its offset.
    pub open spec fn decoded_from(self, b: Seq<u8>) -> bool {
        &&& self.div@ == b.subrange(0, 4)
        &&& self.ver_log == b[4]
        &&& self.config == b[5]
        &&& self.atr_len == from_le64(b.subrange(8, 16))
        &&& self.atr@ == b.subrange(16, 49)
    }

    /// The union bytes that hold this payload.
    pub fn write(&self) -> (r: Vec<u8>)
        ensures
            r@ == self.layout(),
    {
        let mut b = zero_buffer(INFO_LEN);
        write_at(&mut b, 0, self.div.as_slice());
        write_byte(&mut b, 4, self.ver_log);
        write_byte(&mut b, 5, self.config);
        write_u64(&mut b, 8, self.atr_len);
        write_at(&mut b, 16, self.atr.as_slice());
        b
    }

    /// The payload that union bytes hold.
    pub fn read(b: &[u8]) -> (r: Self)
        requires
            b@.len() == INFO_LEN,
        ensures
            r.decoded_from(b@),
    {
        Iso14443biInfo {
            div: read_array(b, 0),
            ver_log: b[4],
            config: b[5],
            atr_len: read_u64(b, 8),
            atr: read_array(b, 16),
        }
    }

    /// Reading back the bytes a payload was written to gives the payload.
    pub proof fn lemma_round_trip(self, r: Self)
        requires
            r.decoded_from(self.layout()),
        ensures
            r == self,
    {
        let b = self.layout();
        assert(b.subrange(0, 4) =~= self.div@);
        lemma_le64(self.atr_len);
        assert(b.subrange(8, 16) =~= le64(self.atr_len));
        assert(b.subrange(16, 49) =~= self.atr@);
        assert(r.div =~= self.div);
        assert(r.atr =~= self.atr);
    }
}

/// An ISO/IEC 14443-2B ST SRx target.
#[derive(Debug, Clone, Copy, PartialEq, Eq)]
pub struct Iso14443b2srInfo {
    pub uid: [u8; 8],
}

impl Iso14443b2srInfo {
    /// The union bytes that hold this payload; bytes between fields are zero.
    pub open spec fn layout(self) -> Seq<u8> {
        let b = zeros(INFO_LEN as nat);
        splice(b, 0, self.uid@)
    }

    /// Whether each field is what union bytes `b` hold at its offset.
    pub open spec fn decoded_from(self, b: Seq<u8>) -> bool {
        &&& self.uid@ == b.subrange(0, 8)
    }

    /// The union bytes that hold this payload.
    pub fn write(&self) -> (r: Vec<u8>)
        ensures
            r@ == self.layout(),
    {
        let mut b = zero_buffer(INFO_LEN);
        write_at(&mut b, 0, self.uid.as_slice());
        b
    }

    /// The payload that union bytes hold.
    pub fn read(b: &[u8]) -> (r: Self)
        requires
            b@.len() == INFO_LEN,
        ensures
            r.decoded_from(b@),
    {
        Iso14443b2srInfo {
            uid: read_array(b, 0),
        }
    }

    /// Reading back the bytes a payload was written to gives the payload.
    pub proof fn lemma_round_trip(self, r: Self)
        requires
            r.decoded_from(self.layout()),
        ensures
            r == self,
    {
        let b = self.layout();
        assert(b.subrange(0, 8) =~= self.uid@);
        assert(r.uid =~= self.uid);
    }
}

/// An ISO/IEC 14443-2B ASK CTx target.
#[derive(Debug, Clone, Copy, PartialEq, Eq)]
pub struct Iso14443b2ctInfo {
    pub uid: [u8; 4],
    pub prod_code: u8,
    pub fab_code: u8,
}

impl Iso14443b2ctInfo {
    /// The union bytes that hold this payload; bytes between fields are zero.
    pub open spec fn layout(self) -> Seq<u8> {
        let b = zeros(INFO_LEN as nat);
        let b = splice(b, 0, self.uid@);
        let b = splice(b, 4, seq![self.prod_code]);
        splice(b, 5, seq![self.fab_code])
    }

    /// Whether each field is what union bytes `b` hold at its offset.
    pub open spec fn decoded_from(self, b: Seq<u8>) -> bool {
        &&& self.uid@ == b.subrange(0, 4)
        &&& self.prod_code == b[4]
        &&& self.fab_code == b[5]
    }

    /// The union bytes that hold this payload.
    pub fn write(&self) -> (r: Vec<u8>)
        ensures
            r@ == self.layout(),
    {
        let mut b = zero_buffer(INFO_LEN);
        write_at(&mut b, 0, self.uid.as_slice());
        write_byte(&mut b, 4, self.prod_code);
        write_byte(&mut b, 5, self.fab_code);
        b
    }

    /// The payload that union bytes hold.
    pub fn read(b: &[u8]) -> (r: Self)
        requires
            b@.len() == INFO_LEN,
        ensures
            r.decoded_from(b@),
    {
        Iso14443b2ctInfo {
            uid: read_array(b, 0),
            prod_code: b[4],
            fab_code: b[5],
        }
    }

    /// Reading back the bytes a payload was written to gives the payload.
    pub proof fn lemma_round_trip(self, r: Self)
        requires
            r.decoded_from(self.layout()),
        ensures
            r == self,
    {
        let b = self.layout();
        assert(b.subrange(0, 4) =~= self.uid@);
        assert(r.uid =~= self.uid);
    }
}

/// A Jewel target.
#[derive(Debug, Clone, Copy, PartialEq, Eq)]
pub struct JewelInfo {
    pub sens_res: [u8; 2],
    pub id: [u8; 4],
}

impl JewelInfo {
    /// The union bytes that hold this payload; bytes between fields are zero.
    pub open spec fn layout(self) -> Seq<u8> {
        let b = zeros(INFO_LEN as nat);
        let b = splice(b, 0, self.sens_res@);
        splice(b, 2, self.id@)
    }

    /// Whether each field is what union bytes `b` hold at its offset.
    pub open spec fn decoded_from(self, b: Seq<u8>) -> bool {
        &&& self.sens_res@ == b.subrange(0, 2)
        &&& self.id@ == b.subrange(2, 6)
    }

    /// The union bytes that hold this payload.
    pub fn write(&self) -> (r: Vec<u8>)
        ensures
            r@ == self.layout(),
    {
        let mut b = zero_buffer(INFO_LEN);
        write_at(&mut b, 0, self.sens_res.as_slice());
        write_at(&mut b, 2, self.id.as_slice());
        b
    }

    /// The payload that union bytes hold.
    pub fn read(b: &[u8]) -> (r: Self)
        requires
            b@.len() == INFO_LEN,
        ensures
            r.decoded_from(b@),
    {
        JewelInfo {
            sens_res: read_array(b, 0),
            id: read_array(b, 2),
        }
    }

    /// Reading back the bytes a payload was written to gives the payload.
    pub proof fn lemma_round_trip(self, r: Self)
        requires
            r.decoded_from(self.layout()),
        ensures
            r == self,
    {
        let b = self.layout();
        assert(b.subrange(0, 2) =~= self.sens_res@);
        assert(b.subrange(2, 6) =~= self.id@);
        assert(r.sens_res =~= self.sens_res);
        assert(r.id =~= self.id);
    }
}

/// A Thinfilm NFC Barcode target.
#[derive(Debug, Clone, Copy, PartialEq, Eq)]
pub struct BarcodeInfo {
    pub data_len: u64,
    pub data: [u8; 32],
}

impl BarcodeInfo {
    /// The union bytes that hold this payload; bytes between fields are zero.
    pub open spec fn layout(self) -> Seq<u8> {
        let b = zeros(INFO_LEN as nat);
        let b = splice(b, 0, le64(self.data_len));
        splice(b, 8, self.data@)
    }

    /// Whether each field is what union bytes `b` hold at its offset.
    pub open spec fn decoded_from(self, b: Seq<u8>) -> bool {
        &&& self.data_len == from_le64(b.subrange(0, 8))
        &&& self.data@ == b.subrange(8, 40)
    }

    /// The union bytes that hold this payload.
    pub fn write(&self) -> (r: Vec<u8>)
        ensures
            r@ == self.layout(),
    {
        let mut b = zero_buffer(INFO_LEN);
        write_u64(&mut b, 0, self.data_len);
        write_at(&mut b, 8, self.data.as_slice());
        b
    }

    /// The payload that union bytes hold.
    pub fn read(b: &[u8]) -> (r: Self)
        requires
            b@.len() == INFO_LEN,
        ensures
            r.decoded_from(b@),
    {
        BarcodeInfo {
            data_len: read_u64(b, 0),
            data: read_array(b, 8),
        }
    }

    /// Reading back the bytes a payload was written to gives the payload.
    pub proof fn lemma_round_trip(self, r: Self)
        requires
            r.decoded_from(self.layout()),
        ensures
            r == self,
    {
        let b = self.layout();
        lemma_le64(self.data_len);
        assert(b.subrange(0, 8) =~= le64(self.data_len));
        assert(b.subrange(8, 40) =~= self.data@);
        assert(r.data =~= self.data);
    }
}

/// A device-to-device (DEP) target.
#[derive(Debug, Clone, Copy, PartialEq, Eq)]
pub struct DepInfo {
    pub nfcid3: [u8; 10],
    pub did: u8,
    pub bs: u8,
    pub br: u8,
    pub to: u8,
    pub pp: u8,
    pub gb: [u8; 48],
    pub gb_len: u64,
    pub ndm: DepMode,
}

impl DepInfo {
    /// The union bytes that hold this payload; bytes between fields are zero.
    pub open spec fn layout(self) -> Seq<u8> {
        let b = zeros(INFO_LEN as nat);
        let b = splice(b, 0, self.nfcid3@);
        let b = splice(b, 10, seq![self.did]);
        let b = splice(b, 11, seq![self.bs]);
        let b = splice(b, 12, seq![self.br]);
        let b = splice(b, 13, seq![self.to]);
        let b = splice(b, 14, seq![self.pp]);
        let b = splice(b, 15, self.gb@);
        let b = splice(b, 64, le64(self.gb_len));
        splice(b, 72, le32(self.ndm.spec_code()))
    }

    /// Whether each field is what union bytes `b` hold at its offset.
    pub open spec fn decoded_from(self, b: Seq<u8>) -> bool {
        &&& self.nfcid3@ == b.subrange(0, 10)
        &&& self.did == b[10]
        &&& self.bs == b[11]
        &&& self.br == b[12]
        &&& self.to == b[13]
        &&& self.pp == b[14]
        &&& self.gb@ == b.subrange(15, 63)
        &&& self.gb_len == from_le64(b.subrange(64, 72))
        &&& DepMode::spec_from_code(from_le32(b.subrange(72, 76))) == Some(self.ndm)
    }

    /// Whether union bytes hold a payload of this kind: its mode is a known one.
    pub open spec fn readable(b: Seq<u8>) -> bool {
        DepMode::spec_from_code(from_le32(b.subrange(72, 76))) is Some
    }

    /// The union bytes that hold this payload.
    pub fn write(&self) -> (r: Vec<u8>)
        ensures
            r@ == self.layout(),
    {
        let mut b = zero_buffer(INFO_LEN);
        write_at(&mut b, 0, self.nfcid3.as_slice());
        write_byte(&mut b, 10, self.did);
        write_byte(&mut b, 11, self.bs);
        write_byte(&mut b, 12, self.br);
        write_byte(&mut b, 13, self.to);
        write_byte(&mut b, 14, self.pp);
        write_at(&mut b, 15, self.gb.as_slice());
        write_u64(&mut b, 64, self.gb_len);
        write_u32(&mut b, 72, self.ndm.code());
        b
    }

    /// The payload that union bytes hold.
    pub fn read(b: &[u8]) -> (r: Self)
        requires
            b@.len() == INFO_LEN,
            DepInfo::readable(b@),
        ensures
            r.decoded_from(b@),
    {
        let ndm = match DepMode::from_code(read_u32(b, 72)) {
            Some(m) => m,
            None => {
                proof {
                    assert(false);
                }
                DepMode::Undefined
            },
        };
        DepInfo {
            nfcid3: read_array(b, 0),
            did: b[10],
            bs: b[11],
            br: b[12],
            to: b[13],
            pp: b[14],
            gb: read_array(b, 15),
            gb_len: read_u64(b, 64),
            ndm,
        }
    }

    /// Reading back the bytes a payload was written to gives the payload.
    pub proof fn lemma_round_trip(self, r: Self)
        requires
            r.decoded_from(self.layout()),
        ensures
            r == self,
    {
        let b = self.layout();
        assert(b.subrange(0, 10) =~= self.nfcid3@);
        assert(b.subrange(15, 63) =~= self.gb@);
        lemma_le64(self.gb_len);
        assert(b.subrange(64, 72) =~= le64(self.gb_len));
        lemma_le32(self.ndm.spec_code());
        assert(b.subrange(72, 76) =~= le32(self.ndm.spec_code()));
        assert(r.nfcid3 =~= self.nfcid3);
        assert(r.gb =~= self.gb);
    }
}

} // verus!
