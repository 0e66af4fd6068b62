//! Reading the text of one element out of the modem's XML replies.
use vstd::prelude::*;
use vstd::utf8::encode_utf8;
use vstd::string::StringSliceAdditionalSpecFns;

verus! {

/// One event of an XML reader, as the element search sees it.
pub enum XmlEvent {
    /// An opening tag with this name.
    Start(Vec<u8>),
    /// The end of the input.
    End,
    /// Input that is not well-formed.
    Failed,
    /// Anything else: text, a closing tag, a declaration, a comment.
    Other,
}

/// The model of an event.
pub ghost enum XmlEventView {
    Start(Seq<u8>),
    End,
    Failed,
    Other,
}

impl XmlEvent {
    pub open spec fn view(&self) -> XmlEventView {
        match self {
            XmlEvent::Start(name) => XmlEventView::Start(name@),
            XmlEvent::End => XmlEventView::End,
            XmlEvent::Failed => XmlEventView::Failed,
            XmlEvent::Other => XmlEventView::Other,
        }
    }
}

/// Whether an event ends the reading.
pub open spec fn is_final(e: XmlEventView) -> bool {
    e is End || e is Failed
}

/// The events that quick_xml's reader, trimming whitespace around text,
/// yields for a text, up to and including the first end of input or error.
pub uninterp spec fn xml_events(xml: Seq<char>) -> Seq<XmlEventView>;

/// What quick_xml's `read_text` returns, for the element named `tag`, once
/// `read` events of the text have been read; `None` where it fails.
pub uninterp spec fn xml_text_after(xml: Seq<char>, read: nat, tag: Seq<u8>) -> Option<Seq<char>>;

/// A quick_xml reader over a copy of the text. The reader's type is generic
/// over std's `BufRead`, which Verus does not accept in a type declaration,
/// so it is held here.
#[verifier::external_body]
pub struct XmlReader {
    inner: quick_xml::Reader<std::io::Cursor<Vec<u8>>>,
}

/// The text a reader reads.
pub uninterp spec fn reader_input(r: XmlReader) -> Seq<char>;

/// How many events a reader has handed out.
pub uninterp spec fn reader_count(r: XmlReader) -> nat;

/// Relies on quick_xml's Reader::from_reader and trim_text: a reader at the
/// start of the text. Reading a finite text ends: every event but the end
/// of input and an error consumes input.
#[verifier::external_body]
fn xml_reader(xml: &str) -> (r: XmlReader)
    ensures
        reader_input(r) == xml@,
        reader_count(r) == 0,
        xml_events(reader_input(r)).len() > 0,
        is_final(xml_events(reader_input(r)).last()),
{
    let mut inner = quick_xml::Reader::from_reader(std::io::Cursor::new(xml.as_bytes().to_vec()));
    inner.trim_text(true);
    XmlReader { inner }
}

/// Relies on quick_xml's Reader::read_event: the next event of the text.
#[verifier::external_body]
fn next_event(r: &mut XmlReader) -> (e: XmlEvent)
    requires
        reader_count(*old(r)) < xml_events(reader_input(*old(r))).len(),
    ensures
        reader_input(*final(r)) == reader_input(*old(r)),
        reader_count(*final(r)) == reader_count(*old(r)) + 1,
        e@ == xml_events(reader_input(*old(r)))[reader_count(*old(r)) as int],
{
    let mut buf = Vec::new();
    match r.inner.read_event(&mut buf) {
        Ok(quick_xml::events::Event::Start(e)) => XmlEvent::Start(e.name().to_vec()),
        Ok(quick_xml::events::Event::Eof) => XmlEvent::End,
        Ok(_) => XmlEvent::Other,
        Err(_) => XmlEvent::Failed,
    }
}

/// Relies on quick_xml's Reader::read_text: the unescaped text up to the
/// closing tag named `tag`.
#[verifier::external_body]
fn element_text(r: &mut XmlReader, tag: &[u8]) -> (t: Option<String>)
    ensures
        match t {
            Some(s) => xml_text_after(reader_input(*old(r)), reader_count(*old(r)), tag@) == Some(s@),
            None => xml_text_after(reader_input(*old(r)), reader_count(*old(r)), tag@) is None,
        },
{
    r.inner.read_text(tag, &mut Vec::new()).ok()
}

/// Event `k` opens the first element named `tag`, and no event before it
/// ends the reading.
pub open spec fn first_start(events: Seq<XmlEventView>, tag: Seq<u8>, k: int) -> bool {
    &&& 0 <= k < events.len()
    &&& events[k] == XmlEventView::Start(tag)
    &&& forall|i: int| 0 <= i < k ==> !is_final(#[trigger] events[i]) && events[i] != XmlEventView::Start(tag)
}

/// The text of the first element named `tag`: what is read right after the
/// event that opens it; `None` where the input ends or fails first.
pub open spec fn tag_text(xml: Seq<char>, tag: Seq<char>) -> Option<Seq<char>> {
    let events = xml_events(xml);
    let name = encode_utf8(tag);
    if exists|k: int| first_start(events, name, k) {
        xml_text_after(xml, (choose|k: int| first_start(events, name, k)) as nat + 1, name)
    } else {
        None
    }
}

proof fn lemma_first_start_unique(events: Seq<XmlEventView>, tag: Seq<u8>, k: int, j: int)
    requires
        first_start(events, tag, k),
        first_start(events, tag, j),
    ensures
        k == j,
{
    if k < j {
        assert(events[k] != XmlEventView::Start(tag));
    } else if j < k {
        assert(events[j] != XmlEventView::Start(tag));
    }
}

fn same_bytes(a: &Vec<u8>, b: &[u8]) -> (r: bool)
    ensures
        r == (a@ == b@),
{
    if a.len() != b.len() {
        return false;
    }
    let mut k: usize = 0;
    while k < a.len()
        invariant
            a@.len() == b@.len(),
            k <= a@.len(),
            forall|j: int| 0 <= j < k ==> a@[j] == b@[j],
        decreases a@.len() - k,
    {
        if a[k] != b[k] {
            return false;
        }
        k = k + 1;
    }
    assert(a@ =~= b@);
    true
}

/// The text of the first element named `tag` in `xml`.
pub fn get_value_from_tag(xml: &str, tag: &str) -> (r: Option<String>)
    ensures
        match r {
            Some(t) => tag_text(xml@, tag@) == Some(t@),
            None => tag_text(xml@, tag@) is None,
        },
{
    let name = tag.as_bytes();
    let mut reader = xml_reader(xml);
    let ghost events = xml_events(xml@);
    let ghost tname = encode_utf8(tag@);
    assert(name@ == tname);
    loop
        invariant
            reader_input(reader) == xml@,
            events == xml_events(xml@),
            name@ == tname,
            tname == encode_utf8(tag@),
            events.len() > 0,
            is_final(events.last()),
            reader_count(reader) < events.len(),
            forall|i: int|
                0 <= i < reader_count(reader) ==> !is_final(#[trigger] events[i]) && events[i]
                    != XmlEventView::Start(tname),
        decreases events.len() - reader_count(reader),
    {
        let ghost k = reader_count(reader) as int;
        let e = next_event(&mut reader);
        match e {
            XmlEvent::Start(found) => {
                if same_bytes(&found, name) {
                    proof {
                        assert(first_start(events, tname, k));
                        assert forall|j: int| first_start(events, tname, j) implies j == k by {
                            lemma_first_start_unique(events, tname, k, j);
                        }
                    }
                    return element_text(&mut reader, name);
                }
            },
            XmlEvent::End => {
                proof {
                    assert forall|j: int| !first_start(events, tname, j) by {
                        if first_start(events, tname, j) && j > k {
                            assert(is_final(events[k]));
                        }
                    }
                }
                return None;
            },
            XmlEvent::Failed => {
                proof {
                    assert forall|j: int| !first_start(events, tname, j) by {
                        if first_start(events, tname, j) && j > k {
                            assert(is_final(events[k]));
                        }
                    }
                    assert(!(exists|j: int| first_start(events, tname, j)));
                    assert(tag_text(xml@, tag@) is None);
                }
                return None;
            },
            XmlEvent::Other => {},
        }
        proof {
            if reader_count(reader) == events.len() {
                assert(is_final(events[events.len() - 1]));
            }
        }
    }
}

} // verus!
