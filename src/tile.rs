//! The contents of one cell of the board, and the two players whose tokens fill it.
use vstd::prelude::*;
use vstd::string::StrSliceExecFns;

verus! {

/// What one cell of the board holds.
///
/// `Wall` is a reserved marker: no rule of the game ever puts it on the board.
#[derive(Debug, Clone, Copy, PartialEq, Eq, Structural)]
pub enum TileType {
    Empty,
    Cookie,
    Milk,
    Wall,
}

/// One of the two sides of the game.
#[derive(Debug, Clone, Copy, PartialEq, Eq, Structural)]
pub enum Player {
    Cookie,
    Milk,
}

/// The glyph that stands for a tile when the board is drawn.
pub open spec fn glyph(t: TileType) -> char {
    match t {
        TileType::Empty => '⬛',
        TileType::Cookie => '🍪',
        TileType::Milk => '🥛',
        TileType::Wall => '⬜',
    }
}

/// The player named by a team token; the tokens are case-sensitive.
pub open spec fn player_named(name: Seq<char>) -> Option<Player> {
    if name == "cookie"@ {
        Some(Player::Cookie)
    } else if name == "milk"@ {
        Some(Player::Milk)
    } else {
        None
    }
}

impl TileType {
    /// A tile that holds a player's token.
    pub open spec fn is_color(self) -> bool {
        self is Cookie || self is Milk
    }

    /// The player whose token this tile holds, if any.
    pub open spec fn spec_owner(self) -> Option<Player> {
        match self {
            TileType::Cookie => Some(Player::Cookie),
            TileType::Milk => Some(Player::Milk),
            _ => None,
        }
    }

    /// The player whose token this tile holds, if any.
    pub fn owner(&self) -> (r: Option<Player>)
        ensures
            r == self.spec_owner(),
    {
        match self {
            TileType::Cookie => Some(Player::Cookie),
            TileType::Milk => Some(Player::Milk),
            _ => None,
        }
    }

    /// The glyph of this tile, as text of one character.
    pub fn glyph_text(&self) -> (s: &'static str)
        ensures
            s@ == seq![glyph(*self)],
    {
        proof {
            reveal_strlit("⬛");
            reveal_strlit("🍪");
            reveal_strlit("🥛");
            reveal_strlit("⬜");
        }
        match self {
            TileType::Empty => "⬛",
            TileType::Cookie => "🍪",
            TileType::Milk => "🥛",
            TileType::Wall => "⬜",
        }
    }
}

impl Player {
    /// The tile that a token of this player makes.
    pub open spec fn spec_tile(self) -> TileType {
        match self {
            Player::Cookie => TileType::Cookie,
            Player::Milk => TileType::Milk,
        }
    }

    /// The tile that a token of this player makes.
    pub fn tile(&self) -> (t: TileType)
        ensures
            t == self.spec_tile(),
            t.is_color(),
            t.spec_owner() == Some(*self),
    {
        match self {
            Player::Cookie => TileType::Cookie,
            Player::Milk => TileType::Milk,
        }
    }

    /// Reads a team token: `cookie` or `milk`, exactly; anything else is refused.
    pub fn parse(name: &str) -> (r: Option<Player>)
        ensures
            r == player_named(name@),
    {
        if same_text(name, "cookie") {
            Some(Player::Cookie)
        } else if same_text(name, "milk") {
            Some(Player::Milk)
        } else {
            None
        }
    }
}

/// Compares two texts character by character.
fn same_text(a: &str, b: &str) -> (r: bool)
    ensures
        r == (a@ == b@),
{
    let n = a.unicode_len();
    if n != b.unicode_len() {
        return false;
    }
    let mut i: usize = 0;
    while i < n
        invariant
            n == a@.len(),
            n == b@.len(),
            i <= n,
            a@.subrange(0, i as int) == b@.subrange(0, i as int),
        decreases n - i,
    {
        if a.get_char(i) != b.get_char(i) {
            return false;
        }
        assert(a@.subrange(0, i + 1) == a@.subrange(0, i as int).push(a@[i as int]));
        assert(b@.subrange(0, i + 1) == b@.subrange(0, i as int).push(b@[i as int]));
        i = i + 1;
    }
    assert(a@ == a@.subrange(0, n as int));
    assert(b@ == b@.subrange(0, n as int));
    true
}

} // verus!
