use tpt_zero_formal::newtype::Newtype;

#[derive(Clone, Copy, Debug, PartialEq, Default)]
struct Meters(f64);

impl Meters {
    fn new(inner: f64) -> Self {
        Self(inner)
    }
}

impl From<f64> for Meters {
    fn from(inner: f64) -> Self {
        Self(inner)
    }
}

impl From<Meters> for f64 {
    fn from(wrapper: Meters) -> Self {
        wrapper.0
    }
}

impl Newtype for Meters {
    type Inner = f64;

    fn into_inner(self) -> f64 {
        self.0
    }

    fn from_inner(inner: f64) -> Self {
        Self(inner)
    }
}

#[derive(Clone, Copy, Debug, PartialEq, Eq, Default)]
struct UserId(u64);

impl UserId {
    fn new(inner: u64) -> Self {
        Self(inner)
    }

    fn as_inner(&self) -> &u64 {
        &self.0
    }
}

impl Newtype for UserId {
    type Inner = u64;

    fn into_inner(self) -> u64 {
        self.0
    }

    fn from_inner(inner: u64) -> Self {
        Self(inner)
    }
}

#[derive(Clone, Debug, PartialEq, Eq, Default)]
struct Count(u32);

impl Newtype for Count {
    type Inner = u32;

    fn into_inner(self) -> u32 {
        self.0
    }

    fn from_inner(inner: u32) -> Self {
        Self(inner)
    }
}

#[derive(Clone, Debug, PartialEq, Default)]
struct Tag(String);

impl core::ops::Deref for Tag {
    type Target = String;

    fn deref(&self) -> &String {
        &self.0
    }
}

impl core::ops::DerefMut for Tag {
    fn deref_mut(&mut self) -> &mut String {
        &mut self.0
    }
}

impl Newtype for Tag {
    type Inner = String;

    fn into_inner(self) -> String {
        self.0
    }

    fn from_inner(inner: String) -> Self {
        Self(inner)
    }
}

#[test]
fn eq_flag_derives_eq() {
    let a = Count(1);
    let b = Count(1);
    assert!(a == b);
    assert!(a != Count(2));
    assert_eq!(Count::from_inner(4).into_inner(), 4);
}

#[test]
fn from_inner_into_inner_roundtrip() {
    let m = Meters::from_inner(2.5);
    assert_eq!(m.into_inner(), 2.5);
}

#[test]
fn from_conversion_and_tuple_access() {
    let m: Meters = 1.0.into();
    assert_eq!(m.0, 1.0);
    let back: f64 = m.into();
    assert_eq!(back, 1.0);
}

#[test]
fn new_and_as_inner() {
    let u = UserId::new(42);
    assert_eq!(u.as_inner(), &42u64);
    assert_eq!(u.into_inner(), 42u64);
    assert_eq!(UserId::from_inner(7), UserId(7));
}

#[test]
fn lib_derived_traits() {
    let a = Meters(1.0);
    let b = a.clone();
    assert_eq!(a, b);
    assert_eq!(a, Meters::new(1.0));

    let d: Meters = Default::default();
    assert_eq!(d.0, 0.0);
}

#[test]
fn deref_exposes_inner_methods() {
    let mut t = Tag::from_inner(String::from("hi"));
    t.push_str(" there");
    assert_eq!(t.0, "hi there");
    assert_eq!(t.len(), 8);

    t.clear();
    assert_eq!(t.0, "");
}
