pub mod score;
pub mod text;
pub mod calendar;
pub mod rank;
pub mod order;
pub mod seqs;
pub mod tokens;
