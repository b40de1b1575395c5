//! Rendered text.
//!
//! A number is kept in a text by its bit pattern: writing its decimal digits
//! is left to whoever prints the text, who hands in a function that writes
//! one number.

use vstd::prelude::*;

verus! {

/// One piece of a rendered text.
#[derive(Debug, PartialEq)]
pub enum Piece {
    /// Characters, taken as they are.
    Chars(String),
    /// A number, by its bit pattern.
    Number(u64),
}

/// The mathematical form of a [`Piece`].
pub enum PieceView {
    Chars(Seq<char>),
    Number(u64),
}

impl View for Piece {
    type V = PieceView;

    open spec fn view(&self) -> PieceView {
        match self {
            Piece::Chars(s) => PieceView::Chars(s@),
            Piece::Number(n) => PieceView::Number(*n),
        }
    }
}

impl Clone for Piece {
    fn clone(&self) -> (r: Piece)
        ensures
            r@ == self@,
    {
        match self {
            Piece::Chars(s) => Piece::Chars(s.clone()),
            Piece::Number(n) => Piece::Number(*n),
        }
    }
}

/// A rendered text: its pieces, in order.
#[derive(Debug, PartialEq)]
pub struct Text {
    pub pieces: Vec<Piece>,
}

impl View for Text {
    type V = Seq<PieceView>;

    open spec fn view(&self) -> Seq<PieceView> {
        Seq::new(self.pieces@.len(), |i: int| self.pieces@[i]@)
    }
}

/// The text that holds the characters `s` and nothing else.
pub open spec fn chars(s: Seq<char>) -> Seq<PieceView> {
    seq![PieceView::Chars(s)]
}

impl Clone for Text {
    fn clone(&self) -> (r: Text)
        ensures
            r@ == self@,
    {
        let mut pieces: Vec<Piece> = Vec::new();
        let mut i: usize = 0;
        while i < self.pieces.len()
            invariant
                i <= self.pieces.len(),
                pieces@.len() == i,
                forall|j: int| 0 <= j < i ==> pieces@[j]@ == self.pieces@[j]@,
            decreases self.pieces.len() - i,
        {
            pieces.push(self.pieces[i].clone());
            i += 1;
        }
        let r = Text { pieces };
        assert(r@ =~= self@);
        r
    }
}

impl Text {
    /// The empty text.
    pub fn new() -> (r: Text)
        ensures
            r@ == Seq::<PieceView>::empty(),
    {
        let r = Text { pieces: Vec::new() };
        assert(r@ =~= Seq::<PieceView>::empty());
        r
    }

    /// The text of the characters of `s`.
    pub fn of_chars(s: &str) -> (r: Text)
        ensures
            r@ == chars(s@),
    {
        let mut pieces: Vec<Piece> = Vec::new();
        pieces.push(Piece::Chars(s.to_owned()));
        let r = Text { pieces };
        assert(r@ =~= chars(s@));
        r
    }

    /// The text of one number.
    pub fn of_number(bits: u64) -> (r: Text)
        ensures
            r@ == seq![PieceView::Number(bits)],
    {
        let mut pieces: Vec<Piece> = Vec::new();
        pieces.push(Piece::Number(bits));
        let r = Text { pieces };
        assert(r@ =~= seq![PieceView::Number(bits)]);
        r
    }

    /// Adds the characters of `s` at the end.
    pub fn push_chars(&mut self, s: &str)
        ensures
            final(self)@ == old(self)@ + chars(s@),
    {
        self.pieces.push(Piece::Chars(s.to_owned()));
        assert(self@ =~= old(self)@ + chars(s@));
    }

    /// Adds the pieces of `other` at the end.
    pub fn append(&mut self, other: &Text)
        ensures
            final(self)@ == old(self)@ + other@,
    {
        let mut i: usize = 0;
        while i < other.pieces.len()
            invariant
                i <= other.pieces.len(),
                self@ =~= old(self)@ + other@.take(i as int),
            decreases other.pieces.len() - i,
        {
            let ghost before = self@;
            self.pieces.push(other.pieces[i].clone());
            assert(self@ =~= before.push(other@[i as int]));
            assert(other@.take(i + 1) =~= other@.take(i as int).push(other@[i as int]));
            i += 1;
        }
        assert(other@.take(i as int) =~= other@);
    }
}

/// How each number is written.
pub type Digits = spec_fn(u64) -> Seq<char>;

/// Whether `digits` writes every number, and each always alike.
pub open spec fn writes_alike<F: Fn(u64) -> String>(digits: &F) -> bool {
    &&& forall|n: u64| call_requires(*digits, (n,))
    &&& forall|n: u64, a: String, b: String|
        call_ensures(*digits, (n,), a) && call_ensures(*digits, (n,), b) ==> a@ == b@
}

/// How `digits` writes each number.
pub open spec fn written_by<F: Fn(u64) -> String>(digits: &F) -> Digits {
    |n: u64| (choose|s: String| call_ensures(*digits, (n,), s))@
}

/// The characters of one piece, a number written as `digits` says.
pub open spec fn piece_chars(piece: PieceView, digits: Digits) -> Seq<char> {
    match piece {
        PieceView::Chars(s) => s,
        PieceView::Number(n) => digits(n),
    }
}

/// The characters of a text: those of its pieces, one after the other.
pub open spec fn flat(text: Seq<PieceView>, digits: Digits) -> Seq<char>
    decreases text.len(),
{
    if text.len() == 0 {
        Seq::empty()
    } else {
        flat(text.drop_last(), digits) + piece_chars(text.last(), digits)
    }
}

impl Text {
    /// The characters of the text, each number written by `digits`.
    pub fn flatten<F: Fn(u64) -> String>(&self, digits: &F) -> (r: String)
        requires
            writes_alike(digits),
        ensures
            r@ == flat(self@, written_by(digits)),
    {
        let ghost d = written_by(digits);
        let mut r = String::new();
        let mut i: usize = 0;
        assert(self@.take(0) =~= Seq::<PieceView>::empty());
        while i < self.pieces.len()
            invariant
                i <= self.pieces.len(),
                writes_alike(digits),
                d == written_by(digits),
                r@ == flat(self@.take(i as int), d),
            decreases self.pieces.len() - i,
        {
            proof {
                assert(self@.take(i + 1).drop_last() =~= self@.take(i as int));
                assert(self@.take(i + 1).last() == self.pieces@[i as int]@);
            }
            match &self.pieces[i] {
                Piece::Chars(s) => {
                    r.append(s.as_str());
                },
                Piece::Number(n) => {
                    let s = digits(*n);
                    r.append(s.as_str());
                },
            }
            i += 1;
        }
        assert(self@.take(i as int) =~= self@);
        r
    }
}

} // verus!
