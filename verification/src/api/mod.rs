pub mod pay;
