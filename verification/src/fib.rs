//! A small self-contained workload for exercising a freshly built pool:
//! the naive doubly recursive Fibonacci.

use vstd::prelude::*;

verus! {

/// The Fibonacci numbers, with `spec_fib(1) == spec_fib(2) == 1`.
pub open spec fn spec_fib(n: nat) -> nat
    decreases n,
{
    if n == 0 {
        0
    } else if n == 1 {
        1
    } else {
        spec_fib((n - 1) as nat) + spec_fib((n - 2) as nat)
    }
}

/// The Fibonacci numbers never decrease.
pub proof fn lemma_fib_monotonic(m: nat, n: nat)
    requires
        m <= n,
    ensures
        spec_fib(m) <= spec_fib(n),
    decreases n - m,
{
    if m < n {
        if n == 1 {
        } else {
            lemma_fib_monotonic(m, (n - 1) as nat);
            assert(spec_fib(n) == spec_fib((n - 1) as nat) + spec_fib((n - 2) as nat));
        }
    }
}

/// The largest Fibonacci number a `u64` can hold, pinned by walking the
/// recurrence up value by value.
proof fn lemma_fib_93()
    ensures
        spec_fib(93) == 12200160415121876738,
{
    assert(spec_fib(0) == 0);
    assert(spec_fib(1) == 1);
    assert(spec_fib(2) == 1);
    assert(spec_fib(3) == 2);
    assert(spec_fib(4) == 3);
    assert(spec_fib(5) == 5);
    assert(spec_fib(6) == 8);
    assert(spec_fib(7) == 13);
    assert(spec_fib(8) == 21);
    assert(spec_fib(9) == 34);
    assert(spec_fib(10) == 55);
    assert(spec_fib(11) == 89);
    assert(spec_fib(12) == 144);
    assert(spec_fib(13) == 233);
    assert(spec_fib(14) == 377);
    assert(spec_fib(15) == 610);
    assert(spec_fib(16) == 987);
    assert(spec_fib(17) == 1597);
    assert(spec_fib(18) == 2584);
    assert(spec_fib(19) == 4181);
    assert(spec_fib(20) == 6765);
    assert(spec_fib(21) == 10946);
    assert(spec_fib(22) == 17711);
    assert(spec_fib(23) == 28657);
    assert(spec_fib(24) == 46368);
    assert(spec_fib(25) == 75025);
    assert(spec_fib(26) == 121393);
    assert(spec_fib(27) == 196418);
    assert(spec_fib(28) == 317811);
    assert(spec_fib(29) == 514229);
    assert(spec_fib(30) == 832040);
    assert(spec_fib(31) == 1346269);
    assert(spec_fib(32) == 2178309);
    assert(spec_fib(33) == 3524578);
    assert(spec_fib(34) == 5702887);
    assert(spec_fib(35) == 9227465);
    assert(spec_fib(36) == 14930352);
    assert(spec_fib(37) == 24157817);
    assert(spec_fib(38) == 39088169);
    assert(spec_fib(39) == 63245986);
    assert(spec_fib(40) == 102334155);
    assert(spec_fib(41) == 165580141);
    assert(spec_fib(42) == 267914296);
    assert(spec_fib(43) == 433494437);
    assert(spec_fib(44) == 701408733);
    assert(spec_fib(45) == 1134903170);
    assert(spec_fib(46) == 1836311903);
    assert(spec_fib(47) == 2971215073);
    assert(spec_fib(48) == 4807526976);
    assert(spec_fib(49) == 7778742049);
    assert(spec_fib(50) == 12586269025);
    assert(spec_fib(51) == 20365011074);
    assert(spec_fib(52) == 32951280099);
    assert(spec_fib(53) == 53316291173);
    assert(spec_fib(54) == 86267571272);
    assert(spec_fib(55) == 139583862445);
    assert(spec_fib(56) == 225851433717);
    assert(spec_fib(57) == 365435296162);
    assert(spec_fib(58) == 591286729879);
    assert(spec_fib(59) == 956722026041);
    assert(spec_fib(60) == 1548008755920);
    assert(spec_fib(61) == 2504730781961);
    assert(spec_fib(62) == 4052739537881);
    assert(spec_fib(63) == 6557470319842);
    assert(spec_fib(64) == 10610209857723);
    assert(spec_fib(65) == 17167680177565);
    assert(spec_fib(66) == 27777890035288);
    assert(spec_fib(67) == 44945570212853);
    assert(spec_fib(68) == 72723460248141);
    assert(spec_fib(69) == 117669030460994);
    assert(spec_fib(70) == 190392490709135);
    assert(spec_fib(71) == 308061521170129);
    assert(spec_fib(72) == 498454011879264);
    assert(spec_fib(73) == 806515533049393);
    assert(spec_fib(74) == 1304969544928657);
    assert(spec_fib(75) == 2111485077978050);
    assert(spec_fib(76) == 3416454622906707);
    assert(spec_fib(77) == 5527939700884757);
    assert(spec_fib(78) == 8944394323791464);
    assert(spec_fib(79) == 14472334024676221);
    assert(spec_fib(80) == 23416728348467685);
    assert(spec_fib(81) == 37889062373143906);
    assert(spec_fib(82) == 61305790721611591);
    assert(spec_fib(83) == 99194853094755497);
    assert(spec_fib(84) == 160500643816367088);
    assert(spec_fib(85) == 259695496911122585);
    assert(spec_fib(86) == 420196140727489673);
    assert(spec_fib(87) == 679891637638612258);
    assert(spec_fib(88) == 1100087778366101931);
    assert(spec_fib(89) == 1779979416004714189);
    assert(spec_fib(90) == 2880067194370816120);
    assert(spec_fib(91) == 4660046610375530309);
    assert(spec_fib(92) == 7540113804746346429);
    assert(spec_fib(93) == 12200160415121876738);
}

/// The naive doubly recursive Fibonacci.  The bound keeps the result, and
/// every intermediate sum, within a `u64`.
pub fn fibonacci_recursive(n: i32) -> (r: u64)
    requires
        1 <= n <= 93,
    ensures
        r == spec_fib(n as nat),
    decreases n,
{
    if n == 1 || n == 2 {
        proof {
            assert(spec_fib(2) == spec_fib(1) + spec_fib(0));
        }
        1
    } else if n == 3 {
        proof {
            assert(spec_fib(2) == spec_fib(1) + spec_fib(0));
            assert(spec_fib(3) == spec_fib(2) + spec_fib(1));
        }
        2
    } else {
        proof {
            lemma_fib_monotonic(n as nat, 93);
            lemma_fib_93();
            assert(spec_fib(n as nat) == spec_fib((n - 1) as nat) + spec_fib((n - 2) as nat));
        }
        fibonacci_recursive(n - 1) + fibonacci_recursive(n - 2)
    }
}

} // verus!
