use vstd::prelude::*;

verus! {

/// Smallest accepted icon size, in pixels.
pub const MIN_ICON_SIZE: u16 = 50;

/// Largest accepted icon size, in pixels.
pub const MAX_ICON_SIZE: u16 = 1404;

/// A rejected command-line value.
#[derive(Clone, Copy, Debug, PartialEq, Eq, Structural)]
pub enum OptionError {
    /// The icon size lies outside the accepted range.
    IconSize { size: u16 },
}

/// Accepts an icon size within the bounds, both included.
pub fn check_icon_size(size: u16) -> (r: Result<u16, OptionError>)
    ensures
        MIN_ICON_SIZE <= size <= MAX_ICON_SIZE ==> r == Ok::<u16, OptionError>(size),
        !(MIN_ICON_SIZE <= size <= MAX_ICON_SIZE) ==> r == Err::<u16, OptionError>(
            OptionError::IconSize { size },
        ),
{
    if size < MIN_ICON_SIZE || size > MAX_ICON_SIZE {
        Err(OptionError::IconSize { size })
    } else {
        Ok(size)
    }
}

/// The name shown for the app: the given name, else the command itself.
pub fn display_name(name: Option<String>, command: &String) -> (r: String)
    ensures
        r@ == match name {
            Some(n) => n@,
            None => command@,
        },
{
    match name {
        Some(n) => n,
        None => command.clone(),
    }
}

} // verus!
