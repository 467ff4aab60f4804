use ts3::response::Entry;
use ts3::shared::list::{List, Separator};
use ts3::error::SpecError;
use ts3::{Decode, Encode, Error, ErrorKind, View};
use vstd::seq::Seq;

struct Semicolon;

impl Separator for Semicolon {
    const PATTERN: &'static str = ";";

    fn pattern_is_not_empty() {}
}

struct Arrow;

impl Separator for Arrow {
    const PATTERN: &'static str = "->";

    fn pattern_is_not_empty() {}
}

#[derive(Debug, PartialEq)]
struct Percent(u8);

impl View for Percent {
    type V = u8;

    fn view(&self) -> u8 {
        self.0
    }
}

impl Decode for Percent {
    fn decoded(_buf: Seq<u8>) -> Result<u8, SpecError> {
        unreachable!()
    }

    fn decode(buf: &[u8]) -> Result<Self, Error> {
        match u8::decode(buf) {
            Ok(n) if n <= 100 => Ok(Percent(n)),
            Ok(_) => Err(Error(ErrorKind::NoField)),
            Err(e) => Err(e),
        }
    }
}

impl Encode for Percent {
    fn encoded(&self) -> Seq<char> {
        unreachable!()
    }

    fn encode(&self, buf: &mut String) {
        self.0.encode(buf);
        buf.push('%');
    }
}

#[test]
fn a_separator_of_ones_own() {
    let list = List::<u16, Semicolon>::decode(b"1;20;300").unwrap();
    assert_eq!(list.into_inner(), vec![1, 20, 300]);
    let mut buf = String::new();
    List::<u16, Semicolon>::new(vec![4, 5]).encode(&mut buf);
    assert_eq!(buf, "4;5");
}

#[test]
fn a_separator_of_more_than_one_byte() {
    let list = List::<String, Arrow>::decode(b"a->b-c->->d").unwrap();
    assert_eq!(
        list.into_inner(),
        vec!["a".to_owned(), "b-c".to_owned(), "".to_owned(), "d".to_owned()]
    );
    let mut buf = String::new();
    List::<u8, Arrow>::new(vec![1, 2, 3]).encode(&mut buf);
    assert_eq!(buf, "1->2->3");
}

#[test]
fn a_type_of_ones_own_in_an_entry_and_a_list() {
    let entry = Entry::decode(b"load=42 over=101").unwrap();
    assert_eq!(entry.get::<Percent>("load").unwrap(), Percent(42));
    assert!(entry.get::<Percent>("over").is_err());
    assert_eq!(
        List::<Percent, Semicolon>::decode(b"1;2").unwrap().into_inner(),
        vec![Percent(1), Percent(2)]
    );
    let mut buf = String::new();
    List::<Percent, Semicolon>::new(vec![Percent(7), Percent(8)]).encode(&mut buf);
    assert_eq!(buf, "7%;8%");
}
