//! The reasoning engine: backtracking, budgets, constraints, convergence,
//! decision trees and divergence.
pub mod backtrack;
pub mod budget;
pub mod constraint;
pub mod converge;
pub mod decision_tree;
pub mod diverge;
pub mod graph_xml;
pub mod snapshot_read;
