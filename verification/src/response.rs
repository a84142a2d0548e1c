use vstd::prelude::*;

verus! {

/// One dictionary definition as the service returns it.  Every field is
/// required in the wire format; a body in which one is absent does not
/// decode.
#[derive(Default, Debug, Clone, PartialEq)]
pub struct Response {
    pub definition: String,
    pub permalink: String,
    pub thumbs_up: i64,
    pub sound_urls: Vec<String>,
    pub author: String,
    pub word: String,
    pub defid: i64,
    pub written_on: String,
    pub example: String,
    pub thumbs_down: i64,
}

/// The mathematical value of a [`Response`]: its texts as character
/// sequences, its counts as integers.
pub struct ResponseV {
    pub definition: Seq<char>,
    pub permalink: Seq<char>,
    pub thumbs_up: int,
    pub sound_urls: Seq<Seq<char>>,
    pub author: Seq<char>,
    pub word: Seq<char>,
    pub defid: int,
    pub written_on: Seq<char>,
    pub example: Seq<char>,
    pub thumbs_down: int,
}

impl View for Response {
    type V = ResponseV;

    open spec fn view(&self) -> ResponseV {
        ResponseV {
            definition: self.definition@,
            permalink: self.permalink@,
            thumbs_up: self.thumbs_up as int,
            sound_urls: Seq::new(self.sound_urls@.len(), |i: int| self.sound_urls@[i]@),
            author: self.author@,
            word: self.word@,
            defid: self.defid as int,
            written_on: self.written_on@,
            example: self.example@,
            thumbs_down: self.thumbs_down as int,
        }
    }
}

} // verus!
