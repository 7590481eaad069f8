use vstd::prelude::*;

verus! {

/// The visual tier of a product. It styles a slot and carries no weight.
#[derive(Copy, Clone, PartialEq, Eq, Structural, Debug, Hash)]
pub enum Pool {
    Red,
    Blue,
    Green,
    White,
}

/// The display name of a pool.
pub open spec fn pool_name(pool: Pool) -> Seq<char> {
    match pool {
        Pool::Red => "Red"@,
        Pool::Blue => "Blue"@,
        Pool::Green => "Green"@,
        Pool::White => "White"@,
    }
}

/// The file name of the artwork that stands for an unrevealed slot of a pool.
pub open spec fn pool_image(pool: Pool) -> Seq<char> {
    match pool {
        Pool::Red => "red.png"@,
        Pool::Blue => "blue.png"@,
        Pool::Green => "green.png"@,
        Pool::White => "grey.png"@,
    }
}

impl Pool {
    /// The artwork of the pool, by file name.
    pub fn image(&self) -> (file: &'static str)
        ensures
            file@ == pool_image(*self),
    {
        match self {
            Pool::Red => "red.png",
            Pool::Blue => "blue.png",
            Pool::Green => "green.png",
            Pool::White => "grey.png",
        }
    }

    /// The name of the pool as it is shown to a customer.
    pub fn to_string(&self) -> (name: String)
        ensures
            name@ == pool_name(*self),
    {
        match self {
            Pool::Red => String::from_str("Red"),
            Pool::Blue => String::from_str("Blue"),
            Pool::Green => String::from_str("Green"),
            Pool::White => String::from_str("White"),
        }
    }
}

} // verus!
