pub mod placebet;
pub mod resolvebet;
pub mod createevent;
