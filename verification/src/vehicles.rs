//! Parkable and paintable objects, demonstrating trait bounds and
//! supertraits.

use vstd::prelude::*;
use vstd::string::StringExecFns;

verus! {

/// Something that can be parked; parking yields a message.
pub trait Park {
    /// The message parking this object yields.
    spec fn park_msg(&self) -> Seq<char>;

    /// Parks the object and reports what happened.
    fn park(&self) -> (s: String)
        ensures
            s@ == self.park_msg(),
    ;
}

/// Something that can be painted; any paintable object can also be
/// parked.
pub trait Paint: Park {
    /// The message painting this object with `color` yields.
    spec fn paint_msg(&self, color: Seq<char>) -> Seq<char>;

    /// Paints the object with the given color and reports what happened.
    fn paint(&self, color: String) -> (s: String)
        ensures
            s@ == self.paint_msg(color@),
    ;
}

struct VehicleInfo {
    name: String,
    maker: String,
    model: String,
    year: u64,
}

/// A car, identified by its vehicle information.
pub struct Car {
    info: VehicleInfo,
}

impl Car {
    /// The car's name.
    pub closed spec fn spec_name(&self) -> Seq<char> {
        self.info.name@
    }

    /// The car's maker.
    pub closed spec fn spec_maker(&self) -> Seq<char> {
        self.info.maker@
    }

    /// The car's model.
    pub closed spec fn spec_model(&self) -> Seq<char> {
        self.info.model@
    }

    /// The car's year of construction.
    pub closed spec fn spec_year(&self) -> int {
        self.info.year as int
    }

    /// Builds a car from its name, maker, model and year.
    pub fn new(name: String, maker: String, model: String, year: u64) -> (c: Car)
        ensures
            c.spec_name() == name@,
            c.spec_maker() == maker@,
            c.spec_model() == model@,
            c.spec_year() == year,
    {
        Car { info: VehicleInfo { name, maker, model, year } }
    }
}

impl Park for Car {
    open spec fn park_msg(&self) -> Seq<char> {
        "A "@ + self.spec_name() + " is parking beside the tree"@
    }

    fn park(&self) -> (s: String) {
        let mut s = "A ".to_owned();
        s.append(self.info.name.as_str());
        s.append(" is parking beside the tree");
        proof {
            assert(s@ =~= self.park_msg());
        }
        s
    }
}

/// A house; it neither moves nor parks, so parking it reports nothing.
pub struct House {}

impl Park for House {
    open spec fn park_msg(&self) -> Seq<char> {
        Seq::<char>::empty()
    }

    fn park(&self) -> (s: String) {
        String::new()
    }
}

impl Paint for House {
    open spec fn paint_msg(&self, color: Seq<char>) -> Seq<char> {
        "Painting house with "@ + color + " "@
    }

    fn paint(&self, color: String) -> (s: String) {
        let mut s = "Painting house with ".to_owned();
        s.append(color.as_str());
        s.append(" ");
        proof {
            assert(s@ =~= self.paint_msg(color@));
        }
        s
    }
}

/// Parks an object; red paint is not applied, the object only parks.
pub fn paint_red<T: Park>(object: &T) -> (s: String)
    ensures
        s@ == object.park_msg(),
{
    object.park()
}

/// Paints an object blue, then parks it, reporting both steps.
pub fn paint_blue<T: Paint>(object: &T) -> (s: String)
    ensures
        s@ == object.paint_msg("blue"@) + object.park_msg(),
{
    let painted = object.paint("blue".to_owned());
    let parked = object.park();
    painted.concat(parked.as_str())
}

/// Paints an object green, reporting the step.
pub fn paint_green<T>(object: &T) -> (s: String) where T: Paint
    ensures
        s@ == object.paint_msg("green"@),
{
    object.paint("green".to_owned())
}

/// Builds a fresh paintable object.
pub fn create_paint_able_object() -> (h: House)
    ensures
        h.park_msg() == Seq::<char>::empty(),
{
    House {  }
}

} // verus!
