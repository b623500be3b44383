//! Shows a tree as indented lines, one node a line, with guides that
//! join each node to its parent.

use crate::ast::expr::{Expr, ExprKind};
use crate::ast::{Program, Stmt, StmtKind};
use crate::check::CheckType;
use crate::utility::text::{decimal, write_decimal};
use vstd::prelude::*;
use vstd::string::*;

verus! {

/// Collects the lines of a tree. For every node on the way from the root
/// to the place where the next line goes, the printer keeps the number of
/// children that are still to come.
pub struct Printer {
    stack: Vec<usize>,
    lines: Vec<String>,
}

/// A printer as contracts speak of it.
pub struct PrinterView {
    pub stack: Seq<usize>,
    pub lines: Seq<Seq<char>>,
}

/// The guides for the first `n` open nodes: a bar where children are
/// still to come, blanks where none are.
pub open spec fn guides(stack: Seq<usize>, n: nat) -> Seq<char>
    decreases n,
{
    if n == 0 || n > stack.len() {
        Seq::empty()
    } else {
        guides(stack, (n - 1) as nat) + if stack[n - 1] > 0 {
            "| "@
        } else {
            "  "@
        }
    }
}

/// The joint that ties a line to its parent: none at the root, a fork
/// where siblings follow, a corner at the last child.
pub open spec fn joint(stack: Seq<usize>) -> Seq<char> {
    if stack.len() == 0 {
        Seq::empty()
    } else if stack.last() > 0 {
        "|-"@
    } else {
        "`-"@
    }
}

/// What stands before the text of the next line.
pub open spec fn prefix(stack: Seq<usize>) -> Seq<char> {
    if stack.len() == 0 {
        Seq::empty()
    } else {
        guides(stack, (stack.len() - 1) as nat) + joint(stack)
    }
}

/// The open nodes without those at the end that have no child to come.
pub open spec fn unwound(stack: Seq<usize>) -> Seq<usize>
    decreases stack.len(),
{
    if stack.len() > 0 && stack.last() == 0 {
        unwound(stack.drop_last())
    } else {
        stack
    }
}

/// The open nodes after a line for a node with `children` children: a
/// node with children is opened; after a leaf, the nodes that are
/// complete are closed and the innermost other has one child less to
/// come.
pub open spec fn after_node(stack: Seq<usize>, children: usize) -> Seq<usize> {
    if children > 0 {
        stack.push((children - 1) as usize)
    } else {
        let rest = unwound(stack);
        if rest.len() > 0 {
            rest.update(rest.len() - 1, (rest.last() - 1) as usize)
        } else {
            rest
        }
    }
}

/// The printer after the line of a node with `children` children.
pub open spec fn with_node(printer: PrinterView, children: usize, text: Seq<char>) -> PrinterView {
    PrinterView {
        stack: after_node(printer.stack, children),
        lines: printer.lines.push(prefix(printer.stack) + text),
    }
}

/// One more than `n`, as far as the machine counts.
pub open spec fn spec_one_more(n: usize) -> usize {
    if n < usize::MAX {
        (n + 1) as usize
    } else {
        n
    }
}

#[verifier::when_used_as_spec(spec_one_more)]
fn one_more(n: usize) -> (m: usize)
    ensures
        m == spec_one_more(n),
{
    if n < usize::MAX {
        n + 1
    } else {
        n
    }
}

/// The lines of the printer as contracts speak of them.
pub open spec fn lines_view(lines: Seq<String>) -> Seq<Seq<char>> {
    Seq::new(lines.len(), |i: int| lines[i]@)
}

impl Printer {
    pub closed spec fn view(&self) -> PrinterView {
        PrinterView { stack: self.stack@, lines: lines_view(self.lines@) }
    }

    /// A printer that has printed nothing.
    pub fn new() -> (printer: Printer)
        ensures
            printer@ == (PrinterView { stack: Seq::empty(), lines: Seq::empty() }),
    {
        let printer = Printer { stack: Vec::new(), lines: Vec::new() };
        assert(printer@.lines =~= Seq::<Seq<char>>::empty());
        printer
    }

    /// The lines printed so far.
    pub fn lines(&self) -> (lines: &Vec<String>)
        ensures
            lines_view(lines@) == self@.lines,
    {
        &self.lines
    }

    /// Prints a node without children.
    pub fn leaf(&mut self, text: &str)
        ensures
            final(self)@ == with_node(old(self)@, 0, text@),
    {
        self.node(0, text)
    }

    /// Prints a node that has `children` children, which are to be printed
    /// next.
    pub fn node(&mut self, children: usize, text: &str)
        ensures
            final(self)@ == with_node(old(self)@, children, text@),
    {
        let mut line = String::new();
        let depth = self.stack.len();
        let mut i: usize = 0;
        assert(line@ =~= guides(self.stack@, 0));
        while i + 1 < depth
            invariant
                depth == self.stack.len(),
                i < depth || depth == 0,
                i == 0 || i + 1 <= depth,
                line@ == guides(self.stack@, i as nat),
            decreases depth - i,
        {
            if self.stack[i] > 0 {
                line.append("| ");
            } else {
                line.append("  ");
            }
            i += 1;
        }
        if depth > 0 {
            if self.stack[depth - 1] > 0 {
                line.append("|-");
            } else {
                line.append("`-");
            }
        }
        line.append(text);
        assert(line@ =~= prefix(self.stack@) + text@);
        let ghost before = self.lines@;
        self.lines.push(line);
        assert(lines_view(self.lines@) =~= lines_view(before).push(line@));
        if children > 0 {
            self.stack.push(children - 1);
        } else {
            while self.stack.len() > 0 && self.stack[self.stack.len() - 1] == 0
                invariant
                    unwound(self.stack@) == unwound(old(self).stack@),
                    self.lines@ == before.push(line),
                decreases self.stack.len(),
            {
                let ghost longer = self.stack@;
                self.stack.pop();
                assert(self.stack@ =~= longer.drop_last());
            }
            let open = self.stack.len();
            if open > 0 {
                let last = self.stack[open - 1];
                self.stack.set(open - 1, last - 1);
            }
        }
    }
}

/// The printer after an expression has been printed.
pub open spec fn expr_printed<C: CheckType>(printer: PrinterView, expr: Expr<C>) -> PrinterView
    decreases expr, 0nat,
{
    match expr.kind {
        ExprKind::Binary(op, lhs, rhs) => expr_printed(
            expr_printed(with_node(printer, 2, "Binary(op = "@ + op.name() + ")"@), *lhs),
            *rhs,
        ),
        ExprKind::Unary(op, operand) => expr_printed(
            with_node(printer, 1, "Unary(op = "@ + op.name() + ")"@),
            *operand,
        ),
        ExprKind::Call(callee, args) => exprs_printed(
            expr_printed(with_node(printer, spec_one_more(args.len()), "Call"@), *callee),
            args@,
            args.len() as nat,
        ),
        ExprKind::Cast(operand, ty) => expr_printed(
            with_node(printer, 1, "Cast("@ + ty.syntax().text() + ")"@),
            *operand,
        ),
        ExprKind::Literal(literal) => with_node(printer, 0, "Literal("@ + literal.text() + ")"@),
        ExprKind::Name(name) => with_node(printer, 0, "Name(name = "@ + name@ + ")"@),
        ExprKind::Decl(field, init) => match init {
            Some(value) => expr_printed(
                with_node(printer, 1, "Decl("@ + field.syntax().text() + ")"@),
                *value,
            ),
            None => with_node(printer, 0, "Decl("@ + field.syntax().text() + ")"@),
        },
    }
}

/// The printer after the first `n` expressions of a list have been
/// printed.
pub open spec fn exprs_printed<C: CheckType>(
    printer: PrinterView,
    exprs: Seq<Expr<C>>,
    n: nat,
) -> PrinterView
    decreases exprs, n,
{
    if n == 0 || n > exprs.len() {
        printer
    } else {
        expr_printed(exprs_printed(printer, exprs, (n - 1) as nat), exprs[n - 1])
    }
}

/// The printer after the first `n` parameters of a function have been
/// printed.
pub open spec fn params_printed<C>(
    printer: PrinterView,
    params: Seq<crate::ast::ty::Field<C>>,
    n: nat,
) -> PrinterView
    decreases n,
{
    if n == 0 || n > params.len() {
        printer
    } else {
        with_node(
            params_printed(printer, params, (n - 1) as nat),
            0,
            "Param("@ + params[n - 1].syntax().text() + ")"@,
        )
    }
}

/// The printer after a statement has been printed.
pub open spec fn stmt_printed<C: CheckType>(printer: PrinterView, stmt: Stmt<C>) -> PrinterView
    decreases stmt, 0nat,
{
    match stmt.kind {
        StmtKind::Compound(stmts) => stmts_printed(
            with_node(
                printer,
                stmts.len(),
                "Compound(#stmts = "@ + decimal(stmts.len() as nat) + ")"@,
            ),
            stmts@,
            stmts.len() as nat,
        ),
        StmtKind::If(cond, consequent, alternative) => match alternative {
            None => stmt_printed(expr_printed(with_node(printer, 2, "If"@), *cond), *consequent),
            Some(alternative) => stmt_printed(
                stmt_printed(expr_printed(with_node(printer, 3, "IfElse"@), *cond), *consequent),
                *alternative,
            ),
        },
        StmtKind::While(cond, body) => stmt_printed(
            expr_printed(with_node(printer, 2, "While"@), *cond),
            *body,
        ),
        StmtKind::Return(value) => expr_printed(with_node(printer, 1, "Return"@), *value),
        StmtKind::Expr(expr) => expr_printed(with_node(printer, 1, "Expr"@), *expr),
        StmtKind::FuncDecl(decl) => stmt_printed(
            params_printed(
                with_node(
                    printer,
                    spec_one_more(decl.params.len()),
                    "FuncDecl("@ + decl.name@ + " -> "@ + decl.return_ty.syntax().text() + ")"@,
                ),
                decl.params@,
                decl.params.len() as nat,
            ),
            decl.body,
        ),
        StmtKind::TypeDecl(decl) => with_node(
            printer,
            0,
            "TypeDecl("@ + decl.name@ + ": "@ + decl.ty.syntax().text() + ")"@,
        ),
    }
}

/// The printer after the first `n` statements of a list have been
/// printed.
pub open spec fn stmts_printed<C: CheckType>(
    printer: PrinterView,
    stmts: Seq<Stmt<C>>,
    n: nat,
) -> PrinterView
    decreases stmts, n,
{
    if n == 0 || n > stmts.len() {
        printer
    } else {
        stmt_printed(stmts_printed(printer, stmts, (n - 1) as nat), stmts[n - 1])
    }
}

/// The printer after a program has been printed.
pub open spec fn program_printed<C: CheckType>(printer: PrinterView, program: Program<C>)
    -> PrinterView {
    stmts_printed(
        with_node(
            printer,
            program.stmts.len(),
            "Program(#stmts = "@ + decimal(program.stmts.len() as nat) + ")"@,
        ),
        program.stmts@,
        program.stmts.len() as nat,
    )
}

impl<C: CheckType> Program<C> {
    /// Prints the program: a line for the program, then its statements.
    pub fn print(&self, p: &mut Printer)
        ensures
            final(p)@ == program_printed(old(p)@, *self),
    {
        let mut text = "Program(#stmts = ".to_owned();
        write_decimal(&mut text, self.stmts.len() as u128);
        text.append(")");
        p.node(self.stmts.len(), text.as_str());
        let ghost start = p@;
        let mut i: usize = 0;
        while i < self.stmts.len()
            invariant
                i <= self.stmts.len(),
                p@ == stmts_printed(start, self.stmts@, i as nat),
            decreases self.stmts.len() - i,
        {
            self.stmts[i].print(p);
            i += 1;
        }
    }
}

impl<C: CheckType> Stmt<C> {
    /// Prints the statement: a line for the statement, then its parts.
    pub fn print(&self, p: &mut Printer)
        ensures
            final(p)@ == stmt_printed(old(p)@, *self),
        decreases self,
    {
        match &self.kind {
            StmtKind::Compound(children) => {
                let mut text = "Compound(#stmts = ".to_owned();
                write_decimal(&mut text, children.len() as u128);
                text.append(")");
                p.node(children.len(), text.as_str());
                let ghost start = p@;
                let mut i: usize = 0;
                while i < children.len()
                    invariant
                        i <= children.len(),
                        forall|j: int|
                            0 <= j < children.len() ==> decreases_to!(self =>
                                #[trigger] children[j]),
                        p@ == stmts_printed(start, children@, i as nat),
                    decreases children.len() - i,
                {
                    children[i].print(p);
                    i += 1;
                }
            },
            StmtKind::If(cond, consequent, None) => {
                p.node(2, "If");
                cond.print(p);
                consequent.print(p);
            },
            StmtKind::If(cond, consequent, Some(alternative)) => {
                p.node(3, "IfElse");
                cond.print(p);
                consequent.print(p);
                alternative.print(p);
            },
            StmtKind::While(cond, body) => {
                p.node(2, "While");
                cond.print(p);
                body.print(p);
            },
            StmtKind::Return(value) => {
                p.node(1, "Return");
                value.print(p);
            },
            StmtKind::Expr(expr) => {
                p.node(1, "Expr");
                expr.print(p);
            },
            StmtKind::FuncDecl(decl) => {
                let mut text = "FuncDecl(".to_owned();
                text.append(decl.name.as_str());
                text.append(" -> ");
                text.append(decl.return_ty.to_text().as_str());
                text.append(")");
                p.node(one_more(decl.params.len()), text.as_str());
                let ghost start = p@;
                let mut i: usize = 0;
                while i < decl.params.len()
                    invariant
                        i <= decl.params.len(),
                        p@ == params_printed(start, decl.params@, i as nat),
                    decreases decl.params.len() - i,
                {
                    let mut text = "Param(".to_owned();
                    text.append(decl.params[i].to_text().as_str());
                    text.append(")");
                    p.leaf(text.as_str());
                    i += 1;
                }
                decl.body.print(p);
            },
            StmtKind::TypeDecl(decl) => {
                let mut text = "TypeDecl(".to_owned();
                text.append(decl.name.as_str());
                text.append(": ");
                text.append(decl.ty.to_text().as_str());
                text.append(")");
                p.leaf(text.as_str());
            },
        }
    }
}

impl<C: CheckType> Expr<C> {
    /// Prints the expression: a line for the expression, then its
    /// operands.
    pub fn print(&self, p: &mut Printer)
        ensures
            final(p)@ == expr_printed(old(p)@, *self),
        decreases self,
    {
        match &self.kind {
            ExprKind::Binary(op, lhs, rhs) => {
                let mut text = "Binary(op = ".to_owned();
                text.append(op.to_name().as_str());
                text.append(")");
                p.node(2, text.as_str());
                lhs.print(p);
                rhs.print(p);
            },
            ExprKind::Unary(op, operand) => {
                let mut text = "Unary(op = ".to_owned();
                text.append(op.to_name().as_str());
                text.append(")");
                p.node(1, text.as_str());
                operand.print(p);
            },
            ExprKind::Call(callee, args) => {
                p.node(one_more(args.len()), "Call");
                callee.print(p);
                let ghost start = p@;
                let mut i: usize = 0;
                while i < args.len()
                    invariant
                        i <= args.len(),
                        forall|j: int|
                            0 <= j < args.len() ==> decreases_to!(self => #[trigger] args[j]),
                        p@ == exprs_printed(start, args@, i as nat),
                    decreases args.len() - i,
                {
                    args[i].print(p);
                    i += 1;
                }
            },
            ExprKind::Cast(operand, ty) => {
                let mut text = "Cast(".to_owned();
                text.append(ty.to_text().as_str());
                text.append(")");
                p.node(1, text.as_str());
                operand.print(p);
            },
            ExprKind::Literal(literal) => {
                let mut text = "Literal(".to_owned();
                text.append(literal.to_text().as_str());
                text.append(")");
                p.leaf(text.as_str());
            },
            ExprKind::Name(name) => {
                let mut text = "Name(name = ".to_owned();
                text.append(name.as_str());
                text.append(")");
                p.leaf(text.as_str());
            },
            ExprKind::Decl(field, init) => {
                let mut text = "Decl(".to_owned();
                text.append(field.to_text().as_str());
                text.append(")");
                match init {
                    Some(value) => {
                        p.node(1, text.as_str());
                        value.print(p);
                    },
                    None => {
                        p.leaf(text.as_str());
                    },
                }
            },
        }
    }
}

} // verus!
