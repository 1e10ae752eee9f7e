pub mod spherical_harmonics;
