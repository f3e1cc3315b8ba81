use p99::transacao::{rejection_status, transacao_decision, TransacaoError, TransacaoReply};

#[test]
fn transacao_unknown_client_is_not_found() {
    assert_eq!(
        transacao_decision(None, 100, "c", "desc"),
        Err(TransacaoError::ClienteNotFound)
    );
    assert_eq!(
        transacao_decision(Some(0), 100, "c", "desc"),
        Err(TransacaoError::ClienteNotFound)
    );
    assert_eq!(
        transacao_decision(Some(6), 100, "c", "desc"),
        Err(TransacaoError::ClienteNotFound)
    );
    assert_eq!(
        transacao_decision(Some(-1), 100, "c", "desc"),
        Err(TransacaoError::ClienteNotFound)
    );
}

#[test]
fn transacao_descricao_must_hold_one_to_ten_bytes() {
    assert_eq!(
        transacao_decision(Some(1), 100, "c", ""),
        Err(TransacaoError::DescricaoInvalid)
    );
    assert_eq!(
        transacao_decision(Some(1), 100, "c", "elevenchars"),
        Err(TransacaoError::DescricaoInvalid)
    );
    assert!(transacao_decision(Some(1), 100, "c", "x").is_ok());
    assert!(transacao_decision(Some(1), 100, "c", "tencharsab").is_ok());
}

#[test]
fn transacao_tipo_must_be_credit_or_debit() {
    assert_eq!(
        transacao_decision(Some(1), 100, "x", "desc"),
        Err(TransacaoError::TipoInvalid)
    );
    assert_eq!(
        transacao_decision(Some(1), 100, "cd", "desc"),
        Err(TransacaoError::TipoInvalid)
    );
    assert_eq!(
        transacao_decision(Some(1), 100, "", "desc"),
        Err(TransacaoError::TipoInvalid)
    );
}

#[test]
fn transacao_valor_must_be_positive() {
    assert_eq!(
        transacao_decision(Some(1), 0, "c", "desc"),
        Err(TransacaoError::ValorInvalid)
    );
    assert_eq!(
        transacao_decision(Some(1), -5, "d", "desc"),
        Err(TransacaoError::ValorInvalid)
    );
}

#[test]
fn transacao_checks_run_in_order() {
    // An unknown client wins over every later rejection.
    assert_eq!(
        transacao_decision(Some(9), -5, "x", ""),
        Err(TransacaoError::ClienteNotFound)
    );
    // With a known client the description is checked before the kind.
    assert_eq!(
        transacao_decision(Some(1), -5, "x", ""),
        Err(TransacaoError::DescricaoInvalid)
    );
    // And the kind before the amount.
    assert_eq!(
        transacao_decision(Some(1), -5, "x", "desc"),
        Err(TransacaoError::TipoInvalid)
    );
}

#[test]
fn transacao_credit_adds_to_the_balance() {
    assert_eq!(
        transacao_decision(Some(1), 500, "c", "desc"),
        Ok(TransacaoReply { limite: 100_000, saldo: 500 })
    );
}

#[test]
fn transacao_debit_within_limit_subtracts() {
    assert_eq!(
        transacao_decision(Some(2), 300, "d", "desc"),
        Ok(TransacaoReply { limite: 80_000, saldo: -300 })
    );
}

#[test]
fn transacao_debit_may_reach_the_limit_exactly() {
    assert_eq!(
        transacao_decision(Some(2), 80_000, "d", "desc"),
        Ok(TransacaoReply { limite: 80_000, saldo: -80_000 })
    );
}

#[test]
fn transacao_debit_over_the_limit_is_rejected() {
    assert_eq!(
        transacao_decision(Some(1), 100_001, "d", "desc"),
        Err(TransacaoError::LimiteExceeded)
    );
    // A credit of the same size is fine: the limit binds debits only.
    assert!(transacao_decision(Some(1), 100_001, "c", "desc").is_ok());
}

#[test]
fn transacao_limits_follow_the_client_table() {
    let expected = [
        (1, 100_000),
        (2, 80_000),
        (3, 1_000_000),
        (4, 10_000_000),
        (5, 500_000),
    ];
    for (id, limite) in expected {
        let r = transacao_decision(Some(id), 1, "c", "desc").unwrap();
        assert_eq!(r.limite, limite);
    }
}

#[test]
fn transacao_rejection_statuses() {
    assert_eq!(rejection_status(&TransacaoError::ClienteNotFound), 404);
    assert_eq!(rejection_status(&TransacaoError::DescricaoInvalid), 422);
    assert_eq!(rejection_status(&TransacaoError::TipoInvalid), 422);
    assert_eq!(rejection_status(&TransacaoError::ValorInvalid), 422);
    assert_eq!(rejection_status(&TransacaoError::LimiteExceeded), 422);
}
