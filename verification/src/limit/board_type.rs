//! Board types and stock statuses.
use vstd::prelude::*;
use crate::text::to_chars;

verus! {

/// Exchange board of a stock.
#[derive(Debug, Clone, Copy, PartialEq, Eq, Structural)]
pub enum BoardType {
    /// Shanghai main board.
    MainBoardSH,
    /// Shenzhen main board.
    MainBoardSZ,
    /// ChiNext.
    ChiNext,
    /// STAR market.
    StarMarket,
    /// Beijing Stock Exchange.
    BSE,
}

/// Trading status of a stock.
#[derive(Debug, Clone, Copy, PartialEq, Eq, Structural)]
pub enum StockStatus {
    Normal,
    ST,
    Delisting,
    NewStock,
    Suspended,
    TempSuspended,
}

/// The board of a stock code, by prefix: `688` STAR; `300`/`301` ChiNext; `8`/`4` BSE;
/// `6` Shanghai main board; anything else Shenzhen main board.
pub open spec fn board_of_code(c: Seq<char>) -> BoardType {
    if c.len() >= 3 && c[0] == '6' && c[1] == '8' && c[2] == '8' {
        BoardType::StarMarket
    } else if c.len() >= 3 && c[0] == '3' && c[1] == '0' && (c[2] == '0' || c[2] == '1') {
        BoardType::ChiNext
    } else if c.len() >= 1 && (c[0] == '8' || c[0] == '4') {
        BoardType::BSE
    } else if c.len() >= 1 && c[0] == '6' {
        BoardType::MainBoardSH
    } else {
        BoardType::MainBoardSZ
    }
}

/// The daily price-limit rate of a board, in percent (5 for ST stocks).
pub open spec fn board_limit_percent(b: BoardType, is_st: bool) -> u32 {
    if is_st {
        5
    } else {
        match b {
            BoardType::MainBoardSH | BoardType::MainBoardSZ => 10,
            BoardType::ChiNext | BoardType::StarMarket => 20,
            BoardType::BSE => 30,
        }
    }
}

impl BoardType {
    /// The board of a stock code.
    pub fn from_code(code: &str) -> (r: Self)
        ensures
            r == board_of_code(code@),
    {
        let c = to_chars(code);
        let n = c.len();
        if n >= 3 && c[0] == '6' && c[1] == '8' && c[2] == '8' {
            Self::StarMarket
        } else if n >= 3 && c[0] == '3' && c[1] == '0' && (c[2] == '0' || c[2] == '1') {
            Self::ChiNext
        } else if n >= 1 && (c[0] == '8' || c[0] == '4') {
            Self::BSE
        } else if n >= 1 && c[0] == '6' {
            Self::MainBoardSH
        } else {
            Self::MainBoardSZ
        }
    }

    /// The daily price-limit rate in percent.
    pub fn limit_rate_percent(&self, is_st: bool) -> (r: u32)
        ensures
            r == board_limit_percent(*self, is_st),
    {
        if is_st {
            return 5;
        }
        match self {
            Self::MainBoardSH | Self::MainBoardSZ => 10,
            Self::ChiNext | Self::StarMarket => 20,
            Self::BSE => 30,
        }
    }
}

} // verus!
