use vstd::prelude::*;

verus! {

/// The container that injectable types are bound in; it holds nothing yet.
pub struct Container {}

impl Container {
    /// Binds a type; nothing is recorded yet.
    pub fn bind(&self) {
    }

    /// Looks up the binding of `iden`; nothing is resolved yet.
    pub fn get<T>(&self, iden: String) {
    }

    fn resolve(&self) {
    }
}

trait Factory: Sized {
    /// The value that `get` makes.
    spec fn made() -> Self;

    fn get() -> (r: Box<Self>)
        ensures
            *r == Self::made(),
    ;
}

struct Tanya {}

impl Factory for Tanya {
    spec fn made() -> Tanya {
        Tanya {  }
    }

    fn get() -> Box<Tanya> {
        Box::new(Tanya {  })
    }
}

impl Tanya {
    pub fn tanya_stuff(&self) {
    }
}

trait FakeTrait {
    fn do_fake_stuff(&self);
}

trait IWhatever {
    fn some_whatever_stuff(&self);
}

struct BenDepend {}

impl FakeTrait for BenDepend {
    fn do_fake_stuff(&self) {
    }
}

impl Factory for BenDepend {
    spec fn made() -> BenDepend {
        BenDepend {  }
    }

    fn get() -> Box<BenDepend> {
        Box::new(BenDepend {  })
    }
}

struct Ben {
    depen: Box<BenDepend>,
}

impl Factory for Ben {
    spec fn made() -> Ben {
        Ben { depen: Box::new(BenDepend::made()) }
    }

    fn get() -> Box<Ben> {
        let depend = call_something::<BenDepend>();
        Box::new(Ben { depen: depend })
    }
}

impl Ben {
    pub fn ben_stuff(&self) {
    }
}

fn call_something<T: Factory>() -> (r: Box<T>)
    ensures
        *r == T::made(),
{
    T::get()
}

fn getter<T: Factory>() -> (r: Box<T>)
    ensures
        *r == T::made(),
{
    T::get()
}

fn temp() {
    let b = Ben::get();
    let t = Tanya::get();
    t.tanya_stuff();
    b.ben_stuff();
    let tanya_2 = call_something::<Tanya>();
    let ben_2 = call_something::<Ben>();
    ben_2.ben_stuff();
    ben_2.depen.do_fake_stuff()
}

} // verus!
