pub mod and;
pub mod and_then;
pub mod apply;
pub mod dyns;
pub mod iter;
pub mod many;
pub mod map;
pub mod may;
pub mod not;
pub mod one;
pub mod or;
pub mod or_else;
pub mod or_trans;
pub mod satisfy;
pub mod sub;

pub use and::And;
pub use and_then::AndThen;
pub use apply::Apply;
pub use apply::Apply2;
pub use apply::Supply;
pub use dyns::Dyn;
pub use iter::Iter;
pub use iter::ParserIter;
pub use many::Many;
pub use many::spec_rep;
pub use many::lemma_spec_rep;
pub use map::Mapped;
pub use may::May;
pub use not::Not;
pub use one::One;
pub use one::one;
pub use or::Or;
pub use or_else::OrElse;
pub use or_trans::OrTrans;
pub use or_trans::spec_scan;
pub use or_trans::lemma_spec_scan;
pub use or_trans::orp_total;
pub use or_trans::orp_det;
pub use or_trans::orp_value;
pub use satisfy::Satisfy;
pub use satisfy::satisfy;
pub use sub::Sub;
pub use sub::sub;
pub use sub::substr;
pub use sub::spec_sub;
pub use sub::lemma_spec_sub;
