pub mod transformation_cage;
