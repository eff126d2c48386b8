//! The records that the service returns. Each is a plain owned value; none
//! refers back to its parent.

pub mod call;
pub mod campus;
pub mod college;
pub mod group;
pub mod lesson;
pub mod schedule;
pub mod week;

pub use call::Call;
pub use campus::Campus;
pub use college::{ids_unique, College};
pub use group::Group;
pub use lesson::Lesson;
pub use schedule::Schedule;
pub use week::{Day, Week, Weekday};
