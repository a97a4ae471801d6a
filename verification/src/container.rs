//! A container abstraction with an associated type, demonstrating traits.

use vstd::prelude::*;

verus! {

/// A store of items of an implementation-chosen container type.
pub trait Container {
    type ContainerType;

    /// Builds a fresh container.
    fn create(&self) -> Self::ContainerType;

    /// A short status text.
    fn get(&self) -> String;

    /// Hands a batch of containers back unchanged.
    fn store(&self, list: Vec<Self::ContainerType>) -> (out: Vec<Self::ContainerType>)
        ensures
            out == list,
    ;

    /// Discards the store's contents; this in-memory store has none.
    fn delete(&self);
}

/// A phone with a name, a model and a price.
pub struct Mobile {
    name: String,
    model: String,
    price: i32,
}

impl Mobile {
    /// The phone's name.
    pub closed spec fn spec_name(&self) -> Seq<char> {
        self.name@
    }

    /// The phone's model.
    pub closed spec fn spec_model(&self) -> Seq<char> {
        self.model@
    }

    /// The phone's price.
    pub closed spec fn spec_price(&self) -> int {
        self.price as int
    }

    /// Reads the phone's name.
    pub fn name(&self) -> (n: &String)
        ensures
            n@ == self.spec_name(),
    {
        &self.name
    }

    /// Reads the phone's model.
    pub fn model(&self) -> (m: &String)
        ensures
            m@ == self.spec_model(),
    {
        &self.model
    }

    /// Reads the phone's price.
    pub fn price(&self) -> (p: i32)
        ensures
            p == self.spec_price(),
    {
        self.price
    }
}

impl Container for Mobile {
    type ContainerType = Vec<Mobile>;

    fn create(&self) -> Self::ContainerType {
        let mut list: Vec<Mobile> = Vec::new();
        let new_mobile = Mobile {
            name: "Motorola ".to_owned(),
            model: "rtx".to_owned(),
            price: 12300,
        };
        list.push(new_mobile);
        list
    }

    fn get(&self) -> String {
        "product created".to_owned()
    }

    fn store(&self, list: Vec<Self::ContainerType>) -> (out: Vec<Self::ContainerType>) {
        list
    }

    fn delete(&self) {
    }
}

/// Builds a list holding a single phone.
pub fn test() -> (r: Vec<Mobile>)
    ensures
        r@.len() == 1,
        r@[0].spec_name() == "Nokia"@,
        r@[0].spec_model() == "1110rs"@,
        r@[0].spec_price() == 1231,
{
    let new_mobile = Mobile { name: "Nokia".to_owned(), model: "1110rs".to_owned(), price: 1231 };
    let mut list: Vec<Mobile> = Vec::new();
    list.push(new_mobile);
    list
}

} // verus!
