//! Devices as the bridge tool lists them, and the parser of its device listing.
use vstd::prelude::*;
use crate::text::{
    is_single_line, is_word, joined_lines, lemma_lines_first, lemma_lines_joined, lemma_words_pair,
    lines, split_lines, split_words, views, words,
};

verus! {

/// One attached device. Two devices are the same device when their serials agree.
#[derive(Debug, Clone)]
pub struct Device {
    pub serial: String,
    pub status: String,
    pub model: String,
}

/// What a `Device` holds, as character sequences.
pub struct DeviceView {
    pub serial: Seq<char>,
    pub status: Seq<char>,
    pub model: Seq<char>,
}

impl View for Device {
    type V = DeviceView;

    open spec fn view(&self) -> DeviceView {
        DeviceView { serial: self.serial@, status: self.status@, model: self.model@ }
    }
}

impl PartialEq for Device {
    fn eq(&self, other: &Device) -> (r: bool)
        ensures
            r == (self.serial@ == other.serial@),
    {
        self.serial == other.serial
    }
}

impl vstd::std_specs::cmp::PartialEqSpecImpl for Device {
    open spec fn obeys_eq_spec() -> bool {
        true
    }

    open spec fn eq_spec(&self, other: &Device) -> bool {
        self.serial@ == other.serial@
    }
}

pub open spec fn device_views(v: Seq<Device>) -> Seq<DeviceView> {
    v.map_values(|d: Device| d@)
}

/// The device that one row of the listing describes: its first word is the serial, its
/// second the status; the model is left empty.
pub open spec fn row_device(row: Seq<char>) -> DeviceView {
    DeviceView { serial: words(row)[0], status: words(row)[1], model: seq![] }
}

/// The devices of the listing rows `rows`, in order: a row with fewer than two words
/// names no device.
pub open spec fn device_rows(rows: Seq<Seq<char>>) -> Seq<DeviceView>
    decreases rows.len(),
{
    if rows.len() == 0 {
        seq![]
    } else {
        let before = device_rows(rows.drop_last());
        if words(rows.last()).len() >= 2 {
            before.push(row_device(rows.last()))
        } else {
            before
        }
    }
}

/// The devices of a whole device listing: its first line is a header.
pub open spec fn listed_devices(output: Seq<char>) -> Seq<DeviceView> {
    if lines(output).len() == 0 {
        seq![]
    } else {
        device_rows(lines(output).drop_first())
    }
}

/// Parses the output of the bridge tool's `devices` subcommand.
pub fn parse_devices(output: &str) -> (r: Vec<Device>)
    ensures
        device_views(r@) == listed_devices(output@),
{
    let ls = split_lines(output);
    let ghost rows = if ls.len() == 0 {
        Seq::<Seq<char>>::empty()
    } else {
        lines(output@).drop_first()
    };
    let mut r: Vec<Device> = Vec::new();
    let mut i: usize = 1;
    proof {
        assert(rows.take(0) =~= Seq::<Seq<char>>::empty());
        assert(device_views(r@) =~= Seq::<DeviceView>::empty());
    }
    while i < ls.len()
        invariant
            1 <= i,
            views(ls@) == lines(output@),
            ls.len() > 0 ==> rows == lines(output@).drop_first(),
            i <= ls.len() || i == 1,
            device_views(r@) == device_rows(rows.take(i - 1)),
        decreases ls.len() - i,
    {
        let ws = split_words(ls[i].as_str());
        let ghost row = ls@[i as int]@;
        assert(row == rows[i - 1]);
        assert(rows.take(i as int).drop_last() =~= rows.take(i - 1));
        assert(rows.take(i as int).last() == row);
        if ws.len() >= 2 {
            let ghost old_r = r@;
            assert(ws@[0]@ == words(row)[0]);
            assert(ws@[1]@ == words(row)[1]);
            r.push(Device { serial: ws[0].clone(), status: ws[1].clone(), model: String::new() });
            assert(device_views(r@) =~= device_views(old_r).push(row_device(row)));
        }
        i = i + 1;
    }
    proof {
        assert(views(ls@).len() == ls.len());
        if ls.len() > 0 {
            assert(rows.take(ls.len() - 1) =~= rows);
        } else {
            assert(rows.take(0) =~= Seq::<Seq<char>>::empty());
        }
    }
    r
}

/// A device listing: a header line, then each of `rows` on a line of its own.
pub open spec fn listing(header: Seq<char>, rows: Seq<Seq<char>>) -> Seq<char> {
    header + seq!['\n'] + joined_lines(rows)
}

/// The listing row of a device with serial `p.0` and status `p.1`.
pub open spec fn two_token_row(p: (Seq<char>, Seq<char>)) -> Seq<char> {
    p.0 + seq![' '] + p.1
}

/// The device that such a row names.
pub open spec fn pair_device(p: (Seq<char>, Seq<char>)) -> DeviceView {
    DeviceView { serial: p.0, status: p.1, model: seq![] }
}

/// Parsing a listing skips its header and reads one device from each row with at least
/// two words, in order; a row with no word or one word is left out.
pub proof fn lemma_listing_rows(header: Seq<char>, rows: Seq<Seq<char>>)
    requires
        is_single_line(header),
        forall|i: int| 0 <= i < rows.len() ==> is_single_line(#[trigger] rows[i]),
    ensures
        listed_devices(listing(header, rows)) == device_rows(rows),
{
    lemma_lines_joined(rows);
    lemma_lines_first(header, joined_lines(rows));
    let ls = lines(listing(header, rows));
    assert(ls == seq![header] + rows);
    assert(ls.drop_first() =~= rows);
}

proof fn lemma_pair_rows(pairs: Seq<(Seq<char>, Seq<char>)>)
    requires
        forall|i: int| 0 <= i < pairs.len() ==> is_word(#[trigger] pairs[i].0) && is_word(
            pairs[i].1,
        ),
    ensures
        device_rows(pairs.map_values(|p: (Seq<char>, Seq<char>)| two_token_row(p))) == pairs.map_values(
            |p: (Seq<char>, Seq<char>)| pair_device(p),
        ),
    decreases pairs.len(),
{
    let rows = pairs.map_values(|p: (Seq<char>, Seq<char>)| two_token_row(p));
    if pairs.len() > 0 {
        let init = pairs.drop_last();
        assert forall|i: int| 0 <= i < init.len() implies is_word(#[trigger] init[i].0) && is_word(
            init[i].1,
        ) by {
            assert(init[i] == pairs[i]);
        }
        lemma_pair_rows(init);
        assert(rows.drop_last() =~= init.map_values(|p: (Seq<char>, Seq<char>)| two_token_row(p)));
        let last = pairs.last();
        lemma_words_pair(last.0, last.1);
        assert(words(rows.last()) == seq![last.0, last.1]);
        assert(pairs.map_values(|p: (Seq<char>, Seq<char>)| pair_device(p)) =~= init.map_values(
            |p: (Seq<char>, Seq<char>)| pair_device(p),
        ).push(pair_device(last)));
    } else {
        assert(rows =~= Seq::<Seq<char>>::empty());
        assert(pairs.map_values(|p: (Seq<char>, Seq<char>)| pair_device(p)) =~= Seq::<
            DeviceView,
        >::empty());
    }
}

/// A listing whose rows are each a serial and a status, one space apart, parses into
/// exactly one device per row, with serial and status as written and no model.
pub proof fn lemma_two_token_listing(header: Seq<char>, pairs: Seq<(Seq<char>, Seq<char>)>)
    requires
        is_single_line(header),
        forall|i: int| 0 <= i < pairs.len() ==> is_word(#[trigger] pairs[i].0) && is_word(
            pairs[i].1,
        ),
    ensures
        listed_devices(listing(header, pairs.map_values(|p: (Seq<char>, Seq<char>)| two_token_row(p))))
            == pairs.map_values(|p: (Seq<char>, Seq<char>)| pair_device(p)),
{
    let rows = pairs.map_values(|p: (Seq<char>, Seq<char>)| two_token_row(p));
    assert forall|i: int| 0 <= i < rows.len() implies is_single_line(#[trigger] rows[i]) by {
        let p = pairs[i];
        assert(rows[i] == p.0 + seq![' '] + p.1);
        assert forall|j: int| 0 <= j < rows[i].len() implies rows[i][j] != '\n' && rows[i][j]
            != '\r' by {
            if j < p.0.len() {
                assert(rows[i][j] == p.0[j]);
            } else if j > p.0.len() {
                assert(rows[i][j] == p.1[j - p.0.len() - 1]);
            }
        }
    }
    lemma_listing_rows(header, rows);
    lemma_pair_rows(pairs);
}

} // verus!
