use vstd::prelude::*;
use vstd::string::StringExecFns;
use crate::lang::expr::{
    Expr,
    MatchBranch,
    MatchCase,
    Stat,
};
use crate::lang::syntax::grammar::{
    ws,
    p_branch,
    p_case,
    p_expr,
    p_field,
    p_item,
    p_list,
    p_stat,
    p_stat_noret,
    separated,
    Item,
    Items,
    Outcome,
    Separator,
};
use crate::lang::syntax::ops::{
    expr_branch_tree,
    field_tree,
    stat_branch_tree,
};
use crate::lang::syntax::reader::{
    agrees_items,
    joined,
    Source,
};
use crate::lang::syntax::tree::{
    case_tree,
    case_trees,
    expr_branch_trees,
    expr_tree,
    expr_trees,
    field_trees,
    stat_branch_trees,
    stat_tree,
    stat_trees,
    Tree,
};

verus! {

impl<'a> Source<'a> {
    /// Reads the separator at `pos`.
    pub(crate) fn separated(&self, pos: usize, separator: Separator) -> (r: Option<usize>)
        requires
            pos <= self@.len(),
        ensures
            match r {
                Some(end) => separated(self@, pos as int, separator) == Some(end as int) && pos
                    <= end <= self@.len(),
                None => separated(self@, pos as int, separator) is None,
            },
    {
        match separator {
            Separator::Comma => self.lit(pos, ","),
            Separator::Bar => self.lit(pos, "|"),
            Separator::Space => Some(self.ws(pos)),
        }
    }

    /// Reads expressions, with separators between them.
    pub fn exprs(&self, pos: usize, separator: Separator) -> (r: Result<(Vec<Expr>, usize), String>)
        requires
            pos <= self@.len(),
        ensures
            agrees_items(
                r,
                |v: Seq<Expr>| expr_trees(v),
                p_list(self@, pos as int, true, Item::Expr, separator),
                pos,
                self@.len(),
            ),
        decreases self@.len() - pos, 30nat, 0nat,
    {
        let mut items: Vec<Expr> = Vec::new();
        let mut at = pos;
        let ghost whole = p_list(self@, pos as int, true, Item::Expr, separator);
        proof {
            match whole {
                Items::Matched(trees, _) => {
                    assert(expr_trees(items@) + trees =~= trees);
                },
                _ => {},
            }
        }
        loop
            invariant
                pos <= at <= self@.len(),
                items@.len() == 0 ==> at == pos,
                whole == p_list(self@, pos as int, true, Item::Expr, separator),
                whole == joined(
                    expr_trees(items@),
                    p_list(self@, at as int, items@.len() == 0, Item::Expr, separator),
                ),
            ensures
                pos <= at <= self@.len(),
                whole == Items::Matched(expr_trees(items@), at as int),
            decreases self@.len() - at, (if items@.len() == 0 { 1int } else { 0int }),
        {
            let ghost here = p_list(self@, at as int, items@.len() == 0, Item::Expr, separator);
            let start = if items.len() == 0 {
                at
            } else {
                match self.separated(at, separator) {
                    Some(p) => p,
                    None => {
                        proof {
                            reveal(p_list);
                            assert(here == Items::Matched(Seq::empty(), at as int));
                            assert(expr_trees(items@) + Seq::<Tree>::empty() =~= expr_trees(items@));
                        }
                        break ;
                    },
                }
            };
            let from = self.ws(start);
            let tried = self.expr(from, 0);
            let ghost inner = p_expr(self@, from as int, 0);
            let ghost step = p_item(self@, start as int, Item::Expr);
            proof {
                reveal(p_item);
                reveal(p_expr);
                assert(step == match inner {
                    Outcome::Matched(tree, end) => Outcome::Matched(tree, ws(self@, end)),
                    o => o,
                });
            }
            let found = match tried {
                Ok(found) => found,
                Err(text) => {
                    proof {
                        reveal(p_list);
                        assert(step == Outcome::Aborted(text@));
                        assert(here == Items::Aborted(text@));
                    }
                    return Err(text);
                },
            };
            let (item, end) = match found {
                Some(found) => found,
                None => {
                    proof {
                        reveal(p_list);
                        assert(step is Failed);
                        assert(here == Items::Matched(Seq::empty(), at as int));
                        assert(expr_trees(items@) + Seq::<Tree>::empty() =~= expr_trees(items@));
                    }
                    break ;
                },
            };
            let next = self.ws(end);
            let ghost before = items@;
            let ghost tree = expr_tree(item);
            items.push(item);
            proof {
                reveal(p_list);
                assert(step == Outcome::Matched(tree, next as int));
                let rest = p_list(self@, next as int, false, Item::Expr, separator);
                assert(here == joined(seq![tree], rest));
                assert(expr_trees(items@) =~= expr_trees(before).push(tree));
                match rest {
                    Items::Matched(more, _) => {
                        assert(expr_trees(items@) + more =~= expr_trees(before) + (seq![tree] + more));
                    },
                    _ => {},
                }
            }
            at = next;
        }
        Ok((items, at))
    }

    /// Reads cases of a match, with separators between them.
    pub fn cases(&self, pos: usize, separator: Separator) -> (r: Result<(Vec<MatchCase>, usize), String>)
        requires
            pos <= self@.len(),
        ensures
            agrees_items(
                r,
                |v: Seq<MatchCase>| case_trees(v),
                p_list(self@, pos as int, true, Item::Case, separator),
                pos,
                self@.len(),
            ),
        decreases self@.len() - pos, 30nat, 0nat,
    {
        let mut items: Vec<MatchCase> = Vec::new();
        let mut at = pos;
        let ghost whole = p_list(self@, pos as int, true, Item::Case, separator);
        proof {
            match whole {
                Items::Matched(trees, _) => {
                    assert(case_trees(items@) + trees =~= trees);
                },
                _ => {},
            }
        }
        loop
            invariant
                pos <= at <= self@.len(),
                items@.len() == 0 ==> at == pos,
                whole == p_list(self@, pos as int, true, Item::Case, separator),
                whole == joined(
                    case_trees(items@),
                    p_list(self@, at as int, items@.len() == 0, Item::Case, separator),
                ),
            ensures
                pos <= at <= self@.len(),
                whole == Items::Matched(case_trees(items@), at as int),
            decreases self@.len() - at, (if items@.len() == 0 { 1int } else { 0int }),
        {
            let ghost here = p_list(self@, at as int, items@.len() == 0, Item::Case, separator);
            let start = if items.len() == 0 {
                at
            } else {
                match self.separated(at, separator) {
                    Some(p) => p,
                    None => {
                        proof {
                            reveal(p_list);
                            assert(here == Items::Matched(Seq::empty(), at as int));
                            assert(case_trees(items@) + Seq::<Tree>::empty() =~= case_trees(items@));
                        }
                        break ;
                    },
                }
            };
            let from = self.ws(start);
            let tried = self.case(from);
            let ghost inner = p_case(self@, from as int);
            let ghost step = p_item(self@, start as int, Item::Case);
            proof {
                reveal(p_item);
                reveal(p_case);
                assert(step == match inner {
                    Outcome::Matched(tree, end) => Outcome::Matched(tree, ws(self@, end)),
                    o => o,
                });
            }
            let found = match tried {
                Ok(found) => found,
                Err(text) => {
                    proof {
                        reveal(p_list);
                        assert(step == Outcome::Aborted(text@));
                        assert(here == Items::Aborted(text@));
                    }
                    return Err(text);
                },
            };
            let (item, end) = match found {
                Some(found) => found,
                None => {
                    proof {
                        reveal(p_list);
                        assert(step is Failed);
                        assert(here == Items::Matched(Seq::empty(), at as int));
                        assert(case_trees(items@) + Seq::<Tree>::empty() =~= case_trees(items@));
                    }
                    break ;
                },
            };
            let next = self.ws(end);
            let ghost before = items@;
            let ghost tree = case_tree(item);
            items.push(item);
            proof {
                reveal(p_list);
                assert(step == Outcome::Matched(tree, next as int));
                let rest = p_list(self@, next as int, false, Item::Case, separator);
                assert(here == joined(seq![tree], rest));
                assert(case_trees(items@) =~= case_trees(before).push(tree));
                match rest {
                    Items::Matched(more, _) => {
                        assert(case_trees(items@) + more =~= case_trees(before) + (seq![tree] + more));
                    },
                    _ => {},
                }
            }
            at = next;
        }
        Ok((items, at))
    }

    /// Reads fields of a struct literal, with separators between them.
    pub fn fields(&self, pos: usize, separator: Separator) -> (r: Result<(Vec<(String, Expr)>, usize), String>)
        requires
            pos <= self@.len(),
        ensures
            agrees_items(
                r,
                |v: Seq<(String, Expr)>| field_trees(v),
                p_list(self@, pos as int, true, Item::Field, separator),
                pos,
                self@.len(),
            ),
        decreases self@.len() - pos, 30nat, 0nat,
    {
        let mut items: Vec<(String, Expr)> = Vec::new();
        let mut at = pos;
        let ghost whole = p_list(self@, pos as int, true, Item::Field, separator);
        proof {
            match whole {
                Items::Matched(trees, _) => {
                    assert(field_trees(items@) + trees =~= trees);
                },
                _ => {},
            }
        }
        loop
            invariant
                pos <= at <= self@.len(),
                items@.len() == 0 ==> at == pos,
                whole == p_list(self@, pos as int, true, Item::Field, separator),
                whole == joined(
                    field_trees(items@),
                    p_list(self@, at as int, items@.len() == 0, Item::Field, separator),
                ),
            ensures
                pos <= at <= self@.len(),
                whole == Items::Matched(field_trees(items@), at as int),
            decreases self@.len() - at, (if items@.len() == 0 { 1int } else { 0int }),
        {
            let ghost here = p_list(self@, at as int, items@.len() == 0, Item::Field, separator);
            let start = if items.len() == 0 {
                at
            } else {
                match self.separated(at, separator) {
                    Some(p) => p,
                    None => {
                        proof {
                            reveal(p_list);
                            assert(here == Items::Matched(Seq::empty(), at as int));
                            assert(field_trees(items@) + Seq::<Tree>::empty() =~= field_trees(items@));
                        }
                        break ;
                    },
                }
            };
            let from = self.ws(start);
            let tried = self.field(from);
            let ghost inner = p_field(self@, from as int);
            let ghost step = p_item(self@, start as int, Item::Field);
            proof {
                reveal(p_item);
                reveal(p_field);
                assert(step == match inner {
                    Outcome::Matched(tree, end) => Outcome::Matched(tree, ws(self@, end)),
                    o => o,
                });
            }
            let found = match tried {
                Ok(found) => found,
                Err(text) => {
                    proof {
                        reveal(p_list);
                        assert(step == Outcome::Aborted(text@));
                        assert(here == Items::Aborted(text@));
                    }
                    return Err(text);
                },
            };
            let (item, end) = match found {
                Some(found) => found,
                None => {
                    proof {
                        reveal(p_list);
                        assert(step is Failed);
                        assert(here == Items::Matched(Seq::empty(), at as int));
                        assert(field_trees(items@) + Seq::<Tree>::empty() =~= field_trees(items@));
                    }
                    break ;
                },
            };
            let next = self.ws(end);
            let ghost before = items@;
            let ghost tree = field_tree(item);
            items.push(item);
            proof {
                reveal(p_list);
                assert(step == Outcome::Matched(tree, next as int));
                let rest = p_list(self@, next as int, false, Item::Field, separator);
                assert(here == joined(seq![tree], rest));
                assert(field_trees(items@) =~= field_trees(before).push(tree));
                match rest {
                    Items::Matched(more, _) => {
                        assert(field_trees(items@) + more =~= field_trees(before) + (seq![tree] + more));
                    },
                    _ => {},
                }
            }
            at = next;
        }
        Ok((items, at))
    }

    /// Reads statements, with separators between them.
    pub fn stats(&self, pos: usize, separator: Separator) -> (r: Result<(Vec<Stat>, usize), String>)
        requires
            pos <= self@.len(),
        ensures
            agrees_items(
                r,
                |v: Seq<Stat>| stat_trees(v),
                p_list(self@, pos as int, true, Item::Stat, separator),
                pos,
                self@.len(),
            ),
        decreases self@.len() - pos, 30nat, 0nat,
    {
        let mut items: Vec<Stat> = Vec::new();
        let mut at = pos;
        let ghost whole = p_list(self@, pos as int, true, Item::Stat, separator);
        proof {
            match whole {
                Items::Matched(trees, _) => {
                    assert(stat_trees(items@) + trees =~= trees);
                },
                _ => {},
            }
        }
        loop
            invariant
                pos <= at <= self@.len(),
                items@.len() == 0 ==> at == pos,
                whole == p_list(self@, pos as int, true, Item::Stat, separator),
                whole == joined(
                    stat_trees(items@),
                    p_list(self@, at as int, items@.len() == 0, Item::Stat, separator),
                ),
            ensures
                pos <= at <= self@.len(),
                whole == Items::Matched(stat_trees(items@), at as int),
            decreases self@.len() - at, (if items@.len() == 0 { 1int } else { 0int }),
        {
            let ghost here = p_list(self@, at as int, items@.len() == 0, Item::Stat, separator);
            let start = if items.len() == 0 {
                at
            } else {
                match self.separated(at, separator) {
                    Some(p) => p,
                    None => {
                        proof {
                            reveal(p_list);
                            assert(here == Items::Matched(Seq::empty(), at as int));
                            assert(stat_trees(items@) + Seq::<Tree>::empty() =~= stat_trees(items@));
                        }
                        break ;
                    },
                }
            };
            let from = self.ws(start);
            let tried = self.stat(from);
            let ghost inner = p_stat(self@, from as int);
            let ghost step = p_item(self@, start as int, Item::Stat);
            proof {
                reveal(p_item);
                reveal(p_stat);
                assert(step == match inner {
                    Outcome::Matched(tree, end) => Outcome::Matched(tree, ws(self@, end)),
                    o => o,
                });
            }
            let found = match tried {
                Ok(found) => found,
                Err(text) => {
                    proof {
                        reveal(p_list);
                        assert(step == Outcome::Aborted(text@));
                        assert(here == Items::Aborted(text@));
                    }
                    return Err(text);
                },
            };
            let (item, end) = match found {
                Some(found) => found,
                None => {
                    proof {
                        reveal(p_list);
                        assert(step is Failed);
                        assert(here == Items::Matched(Seq::empty(), at as int));
                        assert(stat_trees(items@) + Seq::<Tree>::empty() =~= stat_trees(items@));
                    }
                    break ;
                },
            };
            let next = self.ws(end);
            let ghost before = items@;
            let ghost tree = stat_tree(item);
            items.push(item);
            proof {
                reveal(p_list);
                assert(step == Outcome::Matched(tree, next as int));
                let rest = p_list(self@, next as int, false, Item::Stat, separator);
                assert(here == joined(seq![tree], rest));
                assert(stat_trees(items@) =~= stat_trees(before).push(tree));
                match rest {
                    Items::Matched(more, _) => {
                        assert(stat_trees(items@) + more =~= stat_trees(before) + (seq![tree] + more));
                    },
                    _ => {},
                }
            }
            at = next;
        }
        Ok((items, at))
    }

    /// Reads statements, none of them a `return`, with separators between them.
    pub fn stats_noret(&self, pos: usize, separator: Separator) -> (r: Result<(Vec<Stat>, usize), String>)
        requires
            pos <= self@.len(),
        ensures
            agrees_items(
                r,
                |v: Seq<Stat>| stat_trees(v),
                p_list(self@, pos as int, true, Item::StatNoRet, separator),
                pos,
                self@.len(),
            ),
        decreases self@.len() - pos, 30nat, 0nat,
    {
        let mut items: Vec<Stat> = Vec::new();
        let mut at = pos;
        let ghost whole = p_list(self@, pos as int, true, Item::StatNoRet, separator);
        proof {
            match whole {
                Items::Matched(trees, _) => {
                    assert(stat_trees(items@) + trees =~= trees);
                },
                _ => {},
            }
        }
        loop
            invariant
                pos <= at <= self@.len(),
                items@.len() == 0 ==> at == pos,
                whole == p_list(self@, pos as int, true, Item::StatNoRet, separator),
                whole == joined(
                    stat_trees(items@),
                    p_list(self@, at as int, items@.len() == 0, Item::StatNoRet, separator),
                ),
            ensures
                pos <= at <= self@.len(),
                whole == Items::Matched(stat_trees(items@), at as int),
            decreases self@.len() - at, (if items@.len() == 0 { 1int } else { 0int }),
        {
            let ghost here = p_list(self@, at as int, items@.len() == 0, Item::StatNoRet, separator);
            let start = if items.len() == 0 {
                at
            } else {
                match self.separated(at, separator) {
                    Some(p) => p,
                    None => {
                        proof {
                            reveal(p_list);
                            assert(here == Items::Matched(Seq::empty(), at as int));
                            assert(stat_trees(items@) + Seq::<Tree>::empty() =~= stat_trees(items@));
                        }
                        break ;
                    },
                }
            };
            let from = self.ws(start);
            let tried = self.stat_noret(from);
            let ghost inner = p_stat_noret(self@, from as int);
            let ghost step = p_item(self@, start as int, Item::StatNoRet);
            proof {
                reveal(p_item);
                reveal(p_stat_noret);
                assert(step == match inner {
                    Outcome::Matched(tree, end) => Outcome::Matched(tree, ws(self@, end)),
                    o => o,
                });
            }
            let found = match tried {
                Ok(found) => found,
                Err(text) => {
                    proof {
                        reveal(p_list);
                        assert(step == Outcome::Aborted(text@));
                        assert(here == Items::Aborted(text@));
                    }
                    return Err(text);
                },
            };
            let (item, end) = match found {
                Some(found) => found,
                None => {
                    proof {
                        reveal(p_list);
                        assert(step is Failed);
                        assert(here == Items::Matched(Seq::empty(), at as int));
                        assert(stat_trees(items@) + Seq::<Tree>::empty() =~= stat_trees(items@));
                    }
                    break ;
                },
            };
            let next = self.ws(end);
            let ghost before = items@;
            let ghost tree = stat_tree(item);
            items.push(item);
            proof {
                reveal(p_list);
                assert(step == Outcome::Matched(tree, next as int));
                let rest = p_list(self@, next as int, false, Item::StatNoRet, separator);
                assert(here == joined(seq![tree], rest));
                assert(stat_trees(items@) =~= stat_trees(before).push(tree));
                match rest {
                    Items::Matched(more, _) => {
                        assert(stat_trees(items@) + more =~= stat_trees(before) + (seq![tree] + more));
                    },
                    _ => {},
                }
            }
            at = next;
        }
        Ok((items, at))
    }

    /// Reads branches of a match on expressions, with separators between them.
    pub fn expr_branches(&self, pos: usize, separator: Separator) -> (r: Result<(Vec<MatchBranch<Expr>>, usize), String>)
        requires
            pos <= self@.len(),
        ensures
            agrees_items(
                r,
                |v: Seq<MatchBranch<Expr>>| expr_branch_trees(v),
                p_list(self@, pos as int, true, Item::ExprBranch, separator),
                pos,
                self@.len(),
            ),
        decreases self@.len() - pos, 30nat, 0nat,
    {
        let mut items: Vec<MatchBranch<Expr>> = Vec::new();
        let mut at = pos;
        let ghost whole = p_list(self@, pos as int, true, Item::ExprBranch, separator);
        proof {
            match whole {
                Items::Matched(trees, _) => {
                    assert(expr_branch_trees(items@) + trees =~= trees);
                },
                _ => {},
            }
        }
        loop
            invariant
                pos <= at <= self@.len(),
                items@.len() == 0 ==> at == pos,
                whole == p_list(self@, pos as int, true, Item::ExprBranch, separator),
                whole == joined(
                    expr_branch_trees(items@),
                    p_list(self@, at as int, items@.len() == 0, Item::ExprBranch, separator),
                ),
            ensures
                pos <= at <= self@.len(),
                whole == Items::Matched(expr_branch_trees(items@), at as int),
            decreases self@.len() - at, (if items@.len() == 0 { 1int } else { 0int }),
        {
            let ghost here = p_list(self@, at as int, items@.len() == 0, Item::ExprBranch, separator);
            let start = if items.len() == 0 {
                at
            } else {
                match self.separated(at, separator) {
                    Some(p) => p,
                    None => {
                        proof {
                            reveal(p_list);
                            assert(here == Items::Matched(Seq::empty(), at as int));
                            assert(expr_branch_trees(items@) + Seq::<Tree>::empty() =~= expr_branch_trees(items@));
                        }
                        break ;
                    },
                }
            };
            let from = self.ws(start);
            let tried = self.expr_branch(from);
            let ghost inner = p_branch(self@, from as int, false);
            let ghost step = p_item(self@, start as int, Item::ExprBranch);
            proof {
                reveal(p_item);
                reveal(p_branch);
                assert(step == match inner {
                    Outcome::Matched(tree, end) => Outcome::Matched(tree, ws(self@, end)),
                    o => o,
                });
            }
            let found = match tried {
                Ok(found) => found,
                Err(text) => {
                    proof {
                        reveal(p_list);
                        assert(step == Outcome::Aborted(text@));
                        assert(here == Items::Aborted(text@));
                    }
                    return Err(text);
                },
            };
            let (item, end) = match found {
                Some(found) => found,
                None => {
                    proof {
                        reveal(p_list);
                        assert(step is Failed);
                        assert(here == Items::Matched(Seq::empty(), at as int));
                        assert(expr_branch_trees(items@) + Seq::<Tree>::empty() =~= expr_branch_trees(items@));
                    }
                    break ;
                },
            };
            let next = self.ws(end);
            let ghost before = items@;
            let ghost tree = expr_branch_tree(item);
            items.push(item);
            proof {
                reveal(p_list);
                assert(step == Outcome::Matched(tree, next as int));
                let rest = p_list(self@, next as int, false, Item::ExprBranch, separator);
                assert(here == joined(seq![tree], rest));
                assert(expr_branch_trees(items@) =~= expr_branch_trees(before).push(tree));
                match rest {
                    Items::Matched(more, _) => {
                        assert(expr_branch_trees(items@) + more =~= expr_branch_trees(before) + (seq![tree] + more));
                    },
                    _ => {},
                }
            }
            at = next;
        }
        Ok((items, at))
    }

    /// Reads branches of a match on statements, with separators between them.
    pub fn stat_branches(&self, pos: usize, separator: Separator) -> (r: Result<(Vec<MatchBranch<Stat>>, usize), String>)
        requires
            pos <= self@.len(),
        ensures
            agrees_items(
                r,
                |v: Seq<MatchBranch<Stat>>| stat_branch_trees(v),
                p_list(self@, pos as int, true, Item::StatBranch, separator),
                pos,
                self@.len(),
            ),
        decreases self@.len() - pos, 30nat, 0nat,
    {
        let mut items: Vec<MatchBranch<Stat>> = Vec::new();
        let mut at = pos;
        let ghost whole = p_list(self@, pos as int, true, Item::StatBranch, separator);
        proof {
            match whole {
                Items::Matched(trees, _) => {
                    assert(stat_branch_trees(items@) + trees =~= trees);
                },
                _ => {},
            }
        }
        loop
            invariant
                pos <= at <= self@.len(),
                items@.len() == 0 ==> at == pos,
                whole == p_list(self@, pos as int, true, Item::StatBranch, separator),
                whole == joined(
                    stat_branch_trees(items@),
                    p_list(self@, at as int, items@.len() == 0, Item::StatBranch, separator),
                ),
            ensures
                pos <= at <= self@.len(),
                whole == Items::Matched(stat_branch_trees(items@), at as int),
            decreases self@.len() - at, (if items@.len() == 0 { 1int } else { 0int }),
        {
            let ghost here = p_list(self@, at as int, items@.len() == 0, Item::StatBranch, separator);
            let start = if items.len() == 0 {
                at
            } else {
                match self.separated(at, separator) {
                    Some(p) => p,
                    None => {
                        proof {
                            reveal(p_list);
                            assert(here == Items::Matched(Seq::empty(), at as int));
                            assert(stat_branch_trees(items@) + Seq::<Tree>::empty() =~= stat_branch_trees(items@));
                        }
                        break ;
                    },
                }
            };
            let from = self.ws(start);
            let tried = self.stat_branch(from);
            let ghost inner = p_branch(self@, from as int, true);
            let ghost step = p_item(self@, start as int, Item::StatBranch);
            proof {
                reveal(p_item);
                reveal(p_branch);
                assert(step == match inner {
                    Outcome::Matched(tree, end) => Outcome::Matched(tree, ws(self@, end)),
                    o => o,
                });
            }
            let found = match tried {
                Ok(found) => found,
                Err(text) => {
                    proof {
                        reveal(p_list);
                        assert(step == Outcome::Aborted(text@));
                        assert(here == Items::Aborted(text@));
                    }
                    return Err(text);
                },
            };
            let (item, end) = match found {
                Some(found) => found,
                None => {
                    proof {
                        reveal(p_list);
                        assert(step is Failed);
                        assert(here == Items::Matched(Seq::empty(), at as int));
                        assert(stat_branch_trees(items@) + Seq::<Tree>::empty() =~= stat_branch_trees(items@));
                    }
                    break ;
                },
            };
            let next = self.ws(end);
            let ghost before = items@;
            let ghost tree = stat_branch_tree(item);
            items.push(item);
            proof {
                reveal(p_list);
                assert(step == Outcome::Matched(tree, next as int));
                let rest = p_list(self@, next as int, false, Item::StatBranch, separator);
                assert(here == joined(seq![tree], rest));
                assert(stat_branch_trees(items@) =~= stat_branch_trees(before).push(tree));
                match rest {
                    Items::Matched(more, _) => {
                        assert(stat_branch_trees(items@) + more =~= stat_branch_trees(before) + (seq![tree] + more));
                    },
                    _ => {},
                }
            }
            at = next;
        }
        Ok((items, at))
    }
}

} // verus!
